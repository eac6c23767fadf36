//! The request table and handshake outcome of the TCP client.

use vstd::prelude::*;

verus! {

/// The number of requests that can be open at once; request ids are below it.
pub const MAX_OPEN_REQUESTS: usize = 4096;

/// Errors during the handshake procedure.
#[derive(Debug, Clone, Copy, PartialEq, Eq)]
pub enum HandshakeError {
    NoVersionReceived,
    VersionMismatch,
    IO,
}

/// The message of a handshake error.
pub open spec fn handshake_error_message(e: HandshakeError) -> Seq<char> {
    match e {
        HandshakeError::NoVersionReceived => "did not receive a version message"@,
        HandshakeError::VersionMismatch => "protocol version mismatch"@,
        HandshakeError::IO => "I/O error :)"@,
    }
}

impl HandshakeError {
    /// The message of the error.
    pub fn to_string(&self) -> (s: String)
        ensures
            s@ == handshake_error_message(*self),
    {
        let m = match self {
            HandshakeError::NoVersionReceived => "did not receive a version message",
            HandshakeError::VersionMismatch => "protocol version mismatch",
            HandshakeError::IO => "I/O error :)",
        };
        m.to_owned()
    }
}

/// Every request slot is taken: the id that would come next is still open.
#[derive(Debug, Clone, Copy, PartialEq, Eq)]
pub struct TooManyOpenRequests;

/// The open requests of a client: one slot per request id, holding what
/// receives the response, and the id handed out last.
#[derive(Debug)]
pub struct ClientInner<T> {
    results: Vec<Option<T>>,
    current_id: u16,
}

/// The slots and the last id of a `ClientInner`.
pub struct ClientInnerView<T> {
    pub slots: Seq<Option<T>>,
    pub current_id: nat,
}

impl<T> View for ClientInner<T> {
    type V = ClientInnerView<T>;

    closed spec fn view(&self) -> ClientInnerView<T> {
        ClientInnerView { slots: self.results@, current_id: self.current_id as nat }
    }
}

/// There is one slot per id, and the last id is one of them.
pub open spec fn request_table_valid<T>(v: ClientInnerView<T>) -> bool {
    v.slots.len() == MAX_OPEN_REQUESTS && v.current_id < MAX_OPEN_REQUESTS
}

/// The id handed out after `current`: the next one, wrapping round.
pub open spec fn next_request_id(current: nat) -> nat {
    (current + 1) % (MAX_OPEN_REQUESTS as nat)
}

/// The table after reserving the next id for `item`, and the id, or the
/// table unchanged and `None` where that id is still open.
pub open spec fn reserve_request<T>(v: ClientInnerView<T>, item: T) -> (ClientInnerView<T>, Option<nat>) {
    let id = next_request_id(v.current_id);
    if v.slots[id as int] is Some {
        (v, None)
    } else {
        (ClientInnerView { slots: v.slots.update(id as int, Some(item)), current_id: id }, Some(id))
    }
}

/// The table after taking what slot `id` holds, and what it held.
pub open spec fn take_request<T>(v: ClientInnerView<T>, id: nat) -> (ClientInnerView<T>, Option<T>) {
    (ClientInnerView { slots: v.slots.update(id as int, None), current_id: v.current_id }, v.slots[id as int])
}

impl<T> ClientInner<T> {
    /// A table with every slot free.
    pub fn new() -> (c: ClientInner<T>)
        ensures
            request_table_valid(c@),
            c@.current_id == 0,
            forall|i: int| 0 <= i < MAX_OPEN_REQUESTS ==> c@.slots[i] is None,
    {
        let mut results: Vec<Option<T>> = Vec::with_capacity(MAX_OPEN_REQUESTS);
        let mut i: usize = 0;
        while i < MAX_OPEN_REQUESTS
            invariant
                i <= MAX_OPEN_REQUESTS,
                results@.len() == i,
                forall|j: int| 0 <= j < i ==> results@[j] is None,
            decreases MAX_OPEN_REQUESTS - i,
        {
            results.push(None);
            i = i + 1;
        }
        ClientInner { results, current_id: 0 }
    }

    /// Reserves the id after the last one for `item`, unless that id is
    /// still open, in which case the table stays as it is.
    pub fn reserve(&mut self, item: T) -> (id: Result<u16, TooManyOpenRequests>)
        requires
            request_table_valid(old(self)@),
        ensures
            request_table_valid(final(self)@),
            (final(self)@, match id {
                Ok(i) => Some(i as nat),
                Err(_) => None,
            }) == reserve_request(old(self)@, item),
    {
        let next_id = (self.current_id + 1) % 4096;
        if self.results[next_id as usize].is_some() {
            return Err(TooManyOpenRequests);
        }
        self.current_id = next_id;
        self.results.set(next_id as usize, Some(item));
        assert(final(self)@.slots == self.results@);
        Ok(next_id)
    }

    /// Takes what slot `id` holds, leaving the slot free.
    pub fn take(&mut self, id: u16) -> (item: Option<T>)
        requires
            request_table_valid(old(self)@),
            id < MAX_OPEN_REQUESTS,
        ensures
            request_table_valid(final(self)@),
            (final(self)@, item) == take_request(old(self)@, id as nat),
    {
        let mut item: Option<T> = None;
        self.results.set_and_swap(id as usize, &mut item);
        item
    }
}

/// A reserved id holds the reserved item until it is taken, and taking it
/// frees the slot again.
pub proof fn lemma_reserve_then_take<T>(v: ClientInnerView<T>, item: T)
    requires
        request_table_valid(v),
        v.slots[next_request_id(v.current_id) as int] is None,
    ensures
        reserve_request(v, item).1 == Some(next_request_id(v.current_id)),
        take_request(reserve_request(v, item).0, next_request_id(v.current_id)).1 == Some(item),
        take_request(reserve_request(v, item).0, next_request_id(v.current_id)).0.slots == v.slots,
{
    let id = next_request_id(v.current_id);
    assert(v.slots.update(id as int, Some(item)).update(id as int, None) =~= v.slots);
}

/// Reserving fails exactly when the id after the last one is still open;
/// the ids handed out go up one at a time and wrap round to zero.
pub proof fn lemma_reserve_ids_cycle<T>(v: ClientInnerView<T>, item: T)
    requires
        request_table_valid(v),
    ensures
        reserve_request(v, item).1 is None <==> v.slots[next_request_id(v.current_id) as int] is Some,
        request_table_valid(reserve_request(v, item).0),
        next_request_id(v.current_id) < MAX_OPEN_REQUESTS,
        v.current_id + 1 < MAX_OPEN_REQUESTS ==> next_request_id(v.current_id) == v.current_id + 1,
        v.current_id + 1 == MAX_OPEN_REQUESTS ==> next_request_id(v.current_id) == 0,
{
}

} // verus!
