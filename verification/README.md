# smol_clip

A small X11 clipboard for text and images, verified with Verus.

The library in `src/` holds the whole logic of the clipboard as conversations:
opening it, reading and writing it, serving the requests of other clients, and
handing the contents over to the clipboard manager at the end. Every step has a
contract that says exactly what is asked of the X server next and how the state
changes. `src/laws/` states and proves what holds of the conversations as a whole:

- what was written is read back, by every user here and by another client;
- of several formats, the first that the owner has is read;
- the pieces of an incremental transfer are joined, in order and in full;
- every request of another client for the clipboard gets exactly one answer;
- once requests are no longer answered, nothing more is written;
- a handover finishes just when a request was answered and the clipboard manager
  has spoken up, in either order;
- a reply that answers nothing that was asked changes nothing.

PNG files are read and written by the `image` crate. What the proofs rely on
about it, and about the few other outside functions, stands in the doc comments of
the functions marked `external_body` and of the `assume_specification` items.

`app/` connects the library to the X server with `x11rb`: the connections, the
thread that serves requests, and the state that the users of one process share.
`tests/` runs the library on concrete conversations.
