# sv1_proxy

A Stratum mining proxy. It holds one connection to a pool and lets many miners share it: each miner
gets a part of the pool's second extranonce of its own, jobs go from the pool to all miners, and
shares go from the miners to the pool under one worker name. Miners that speak the second version of
the protocol get an answer to their first request.

- `src/` is the library, verified with Verus: what the proxy reads, keeps, decides and answers.
- `app/` is the program around it: sockets, tasks, the configuration file and the console.
- `tests/` runs the library on concrete messages.

The program takes the pool's address and the worker's name as arguments, and reads the keys of the
listener for the second protocol version from `config.toml`:

    [keys]
    public_key = "..."
    private_key = "..."

`template_distribution_sv2` is named only to hold it at 3.0.0: `roles_logic_sv2` 2.0.0 asks for any
3.x, and does not build with a later one.
