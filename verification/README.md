# ngx

The rules behind a few nginx modules, verified with Verus.

- `src/conf.rs`: where the configuration of a module lies (`ngx_get_conf`).
- `src/bbr.rs`: a module that admits requests by the load of the CPU: its
  configuration, its directive, its handlers.
- `src/worker.rs`: the timer of a worker process.
- `tests/`: the rules on concrete values.
- `app/`: the modules themselves, on nginx's own structures. Building it takes
  a configured nginx source tree (`NGINX_SOURCE_DIR`) and the crate `cpu_arl_rs`.
