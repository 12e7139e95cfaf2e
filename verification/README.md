# vhost-user-backend

Event handling for vhost-user backends, verified with Verus.

- `src/` decides what a worker does. A worker on epoll is `event_loop`, one on io_uring is
  `iouring`; both are step machines that ask for system calls and backend calls and are told the
  answers. `gate` holds back the handlers while a backend is suspended. The modules whose names end
  in `laws` state what holds over all steps.
- `app/` performs what the steps ask for: it holds the descriptors, the rings, the locks and the
  backend.
- `tests/` runs the library on concrete values.
