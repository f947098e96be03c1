# sunbeam_kanban

The rules of a kanban service, verified with Verus: who may see and change what,
where cards, columns and source boards stand, how references are given out, what
is answered to a request that comes twice, and what a live subscriber is sent.

## Layout

- `src/` is the verified library. Each request is a state machine: a `*_call`
  function checks the request, and a step function says, from what has been
  learned so far, what to look up or write next, or what to answer.
- `app/` performs the steps: PostgreSQL, the permission backend, the object
  store, the GitHub API and the live feeds.
- `tests/` runs the library.

## Conventions

- An id is the text in its canonical form. Text that came with a request is an
  `IdArg`: the text, and the id that it writes, where it writes one.
- What is written together is one value, event log row included, and is stored
  in one transaction.
- Positions are computed in the library on the slots that were read under a
  lock. Laws on them (`law_*`) stand beside the functions they speak of.
