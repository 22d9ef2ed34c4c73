# crab_nat

The logic of a client for NAT port mapping, written and verified in Verus. Ports are mapped on a
gateway with the Port Control Protocol (PCP), the NAT Port Mapping Protocol (NAT-PMP), or the UPnP
Internet Gateway Device protocol, and changes of the gateway's external address are listened for.

* `src/` is the library. It parses what gateways send and decides what to send them. It does no
  input or output: each exchange is a state machine, which says what to do next and takes what
  came of it. `upnp` holds the UPnP protocol, `fallback` the order in which protocols are
  attempted, `mapping` the mappings, `retry` the timing of requests, `listener` and `binding`
  the observation of address changes, and `reporting` what is reported of them over time. `text`, `scan` and `bytes` are the texts all of it is stated
  over.
* `app/` drives the library with sockets and timers. The NAT-PMP and PCP exchanges themselves are
  supplied through the `GatewayProtocols` trait.
* `tests/` runs the library on concrete messages.

What the library promises stands in the `ensures` of its functions, and, where it takes more than
one function to say, in the proof functions whose names begin with `law_`.
