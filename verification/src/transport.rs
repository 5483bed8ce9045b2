use vstd::prelude::*;

use crate::error::TransportError;

verus! {

/// The bus transport collaborator: a one-way byte channel from the driver to
/// the matrix peripheral.
///
/// A transport is modeled by `written()`, the sequence of bytes it has
/// accepted so far.  The physical serial bus lives outside this library; the
/// transports implemented here record or refuse bytes, so the display logic
/// can be exercised and verified without hardware.  A transport is owned by
/// exactly one display and never shared.
pub trait Transport: Sized {
    /// The bytes this transport has accepted so far, oldest first.
    spec fn written(&self) -> Seq<u8>;

    /// Open the transport addressed by `path`, with nothing written yet.
    /// A transport that cannot be opened or configured reports a
    /// [`TransportError`] instead.
    fn open(path: &str) -> (r: Result<Self, TransportError>)
        ensures
            r is Ok ==> r->Ok_0.written() == Seq::<u8>::empty(),
    ;

    /// Send `data` over the transport.  On success the whole of `data` was
    /// accepted, in order; on failure nothing was.
    fn write(&mut self, data: &Vec<u8>) -> (r: Result<(), TransportError>)
        ensures
            r is Ok ==> final(self).written() == old(self).written() + data@,
            r is Err ==> final(self).written() == old(self).written(),
    ;
}

/// An in-memory transport: it can always be opened, accepts every write and
/// records the bytes, so a test can look at exactly what a display sent.
pub struct MemTransport {
    log: Vec<u8>,
}

impl MemTransport {
    /// A fresh in-memory transport with nothing written yet.
    pub fn new() -> (t: MemTransport)
        ensures
            t.written() == Seq::<u8>::empty(),
    {
        MemTransport { log: Vec::new() }
    }

    /// Borrow the bytes recorded so far.
    pub fn bytes(&self) -> (r: &Vec<u8>)
        ensures
            r@ == self.written(),
    {
        &self.log
    }
}

impl Transport for MemTransport {
    closed spec fn written(&self) -> Seq<u8> {
        self.log@
    }

    /// An in-memory transport can always be opened, whatever the path.
    fn open(_path: &str) -> (r: Result<Self, TransportError>)
        ensures
            r is Ok,
    {
        Ok(MemTransport { log: Vec::new() })
    }

    /// An in-memory transport accepts every write.
    fn write(&mut self, data: &Vec<u8>) -> (r: Result<(), TransportError>)
        ensures
            r is Ok,
    {
        append_bytes(&mut self.log, data);
        Ok(())
    }
}

/// Append every byte of `data` to `log`, in order.
fn append_bytes(log: &mut Vec<u8>, data: &Vec<u8>)
    ensures
        final(log)@ == old(log)@ + data@,
{
    let mut i: usize = 0;
    while i < data.len()
        invariant
            i <= data@.len(),
            log@ == old(log)@ + data@.take(i as int),
        decreases data@.len() - i,
    {
        let b = data[i];
        log.push(b);
        proof {
            assert(data@.take(i + 1 as int) =~= data@.take(i as int).push(data@[i as int]));
        }
        i += 1;
    }
    proof {
        assert(data@.take(data@.len() as int) =~= data@);
    }
}

/// A transport standing in for an unusable or failing bus: it refuses to
/// open, and one built directly accepts only a limited number of writes and
/// refuses every one after.
pub struct FailingTransport {
    log: Vec<u8>,
    writes_left: u32,
}

impl FailingTransport {
    /// How many more writes this transport will accept.
    pub closed spec fn budget(&self) -> u32 {
        self.writes_left
    }

    /// A transport that accepts the next `n` writes and refuses the rest.
    pub fn with_budget(n: u32) -> (t: FailingTransport)
        ensures
            t.written() == Seq::<u8>::empty(),
            t.budget() == n,
    {
        FailingTransport { log: Vec::new(), writes_left: n }
    }
}

impl Transport for FailingTransport {
    closed spec fn written(&self) -> Seq<u8> {
        self.log@
    }

    /// Models a bus that cannot be opened: every open reports the error.
    fn open(_path: &str) -> (r: Result<Self, TransportError>)
        ensures
            r is Err,
    {
        Err(TransportError::new("bus cannot be opened".to_string()))
    }

    /// A write is accepted exactly while the budget lasts, and each
    /// accepted write spends one of it.
    fn write(&mut self, data: &Vec<u8>) -> (r: Result<(), TransportError>)
        ensures
            r is Ok <==> old(self).budget() > 0,
            r is Ok ==> final(self).budget() == old(self).budget() - 1,
            r is Err ==> final(self).budget() == old(self).budget(),
    {
        if self.writes_left == 0 {
            Err(TransportError::new("bus refused the write".to_string()))
        } else {
            self.writes_left = self.writes_left - 1;
            append_bytes(&mut self.log, data);
            Ok(())
        }
    }
}

} // verus!
