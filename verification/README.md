# Tonic Async Interceptor

An async variant of Tonic's `Interceptor`: a middleware that sees the metadata and the extensions of
each gRPC request, may change them, and may refuse the request with a status. Async interceptors
are useful for tasks like authentication, where another service or a database has to be asked.

* `src/` is the library, verified with Verus: what the interceptor gets of a request and what the
  wrapped service gets of it afterwards, how a refusal is answered, and the state machine that leads
  from the request to the response. `src/external.rs` lists what is taken for granted of the `http`
  and `tonic` crates, together with `request_from_http` in `src/request.rs` and `status_into_http` in
  `src/status.rs`. `src/laws.rs` states what holds of the library as a whole.
* `app/` puts the library behind the `tower` traits: it polls the futures, calls the wrapped service
  and converts between the types of the library and those of `http` and `tonic`.
* `tests/` run the library.

```rust
async fn my_async_interceptor(req: Request<()>) -> Result<Request<()>, Status> {
    // do things and stuff
    Ok(req)
}

let router = Server::builder()
    .layer(async_interceptor(my_async_interceptor))
    .add_service(some_service);
```
