# modbus-read

## What this is

A read-only Modbus TCP client, verified with Verus. Modbus TCP is a request/response protocol used by electricity meters and power-distribution units: a header (transaction id, protocol id, length, unit id) sits in front of a short body. This crate encodes a read, decodes the reply, and turns the 16-bit register words into numbers. Only function codes 3 (read holding registers) and 4 (read input registers) exist in the types, so a write cannot be expressed.

## Who it is for

An engineer with a meter or similar device on a TCP network who needs to read registers from Rust without taking a dependency that can write.

## How it is laid out

- `src/` is the library: frames, numbers, the decisions of an exchange, and a synthetic device. Every function carries a contract that Verus proves; `src/laws.rs` states what holds of them together.
- `tests/` runs the library on concrete bytes.
- `app/` moves the bytes: reads over anything that is `std::io::Read` and `std::io::Write`, a loopback server for the synthetic device, floating-point numbers, and errors with `Display`.

## How to use it

The register values below are synthetic; they are not readings from a real device.

```rust
let request = ReadRequest::new(
    TransactionId::new(1),
    UnitId::new(1)?,
    FunctionCode::ReadHoldingRegisters,
    RegisterAddress::new(0),
    RegisterCount::new(2)?,
)?;

let mut stage = begin(&request);
let words = loop {
    // Write, flush, or read exactly `stage.wanted()` bytes.
    let outcome = perform(&mut stream, &stage);
    match read_registers(&request, stage, outcome) {
        Step::Next(next) => stage = next,
        Step::Done(result) => break result?,
    }
};
```

## What it deliberately does not do

It does not write to a device. It does not speak Modbus RTU over a serial line. It does not retry or poll; the caller owns the connection, the schedule, and the next transaction id.
