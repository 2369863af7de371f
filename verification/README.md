# nftraffic

A TCP traffic generator for packet pipelines. A pipeline opens a number of connections to a set of
servers, sends data on those that are established, and answers on a port of its own.

* `src/` holds the decisions, with contracts proved by Verus: which frames are kept (`steering`),
  what a segment means and how it is answered (`client`, `server`, `segments`), what is done to the
  frame (`headers`, `packet`, `payload`), the timer (`timer`), and how a frame is handled from lookup
  to verdict (`engine`). `laws` states what holds of all of it together.
* `app/` runs the engine on a pipeline of the e2d2 packet framework, with the connection manager,
  timer wheel and tasks of the main program.
* `tests/` runs the library on concrete frames.
