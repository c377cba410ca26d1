//! The decisions of the event loop that joins a reader, a broker and a writer.

use vstd::prelude::*;

use crate::error::Error;

verus! {

/// Whether an event loop keeps running
#[derive(Debug, Clone, Copy, PartialEq, Eq, Structural)]
pub enum Running {
    /// Keep running
    Continue,
    /// Stop
    Stop,
}

/// What the loop does after the broker handled an event
#[derive(Debug)]
pub enum BrokerStep<W> {
    /// Hand this item to the writer
    Write(W),
    /// Keep running
    Continue,
    /// Stop: the broker failed
    Stop,
}

/// What the loop does after the broker handled an event: a failing broker
/// stops the loop, an item goes to the writer
pub fn after_broker<W>(r: Result<Option<W>, Error>) -> (s: BrokerStep<W>)
    ensures
        match r {
            Err(_) => s is Stop,
            Ok(None) => s is Continue,
            Ok(Some(w)) => s matches BrokerStep::Write(x) && x == w,
        },
{
    match r {
        Err(_) => BrokerStep::Stop,
        Ok(None) => BrokerStep::Continue,
        Ok(Some(w)) => BrokerStep::Write(w),
    }
}

/// What the loop does with what the reader gave
#[derive(Debug)]
pub enum ReadStep<I> {
    /// Hand this event to the broker
    Handle(I),
    /// Stop with this error
    Fail(Error),
    /// Stop: the connection ended
    Stop,
}

/// What the loop does with what the reader gave: the end of the connection
/// stops the loop, a read error ends it with the error
pub fn after_read<I>(r: Option<Result<I, Error>>) -> (s: ReadStep<I>)
    ensures
        match r {
            None => s is Stop,
            Some(Err(e)) => s matches ReadStep::Fail(x) && x == e,
            Some(Ok(i)) => s matches ReadStep::Handle(x) && x == i,
        },
{
    match r {
        None => ReadStep::Stop,
        Some(Err(e)) => ReadStep::Fail(e),
        Some(Ok(i)) => ReadStep::Handle(i),
    }
}

} // verus!
