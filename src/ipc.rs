//! Synchronous call/response channels over one endpoint.
use vstd::prelude::*;

use core::marker::PhantomData;

use crate::cnode::{CNode, CNodeSlots, Role};
use crate::error::{check_status, ApiMethod, SeL4Error, STATUS_OK};
use crate::kernel::{KernelCall, ObjectType, ENDPOINT_BITS};
use crate::untyped::Untyped;

verus! {

/// The side of a channel that sends a request and blocks for the reply.
/// The payload shapes are fixed by the type when the channel is built.
#[derive(Debug)]
pub struct Caller<Req, Rsp> {
    endpoint: usize,
    _shape: PhantomData<(Req, Rsp)>,
}

/// The side of a channel that waits for a request, handles it and replies.
#[derive(Debug)]
pub struct Responder<Req, Rsp> {
    endpoint: usize,
    _shape: PhantomData<(Req, Rsp)>,
}

impl<Req, Rsp> Caller<Req, Rsp> {
    /// Where the endpoint sits in the caller's table.
    pub closed spec fn endpoint_spec(&self) -> usize {
        self.endpoint
    }

    pub fn endpoint(&self) -> (r: usize)
        ensures
            r == self.endpoint_spec(),
    {
        self.endpoint
    }

    /// Given the status of the call on the endpoint and the reply it
    /// brought back: the reply, or the failure of the call.
    pub fn blocking_call(&self, status: usize, reply: Rsp) -> (r: Result<Rsp, SeL4Error>)
        ensures
            status == STATUS_OK ==> r == Ok::<Rsp, SeL4Error>(reply),
            status != STATUS_OK ==> r == Err::<Rsp, SeL4Error>(SeL4Error { method: ApiMethod::Call, code: status }),
    {
        match check_status(ApiMethod::Call, status) {
            Ok(()) => Ok(reply),
            Err(e) => Err(e),
        }
    }
}

impl<Req, Rsp> Responder<Req, Rsp> {
    /// Where the endpoint sits in the responder's table.
    pub closed spec fn endpoint_spec(&self) -> usize {
        self.endpoint
    }

    pub fn endpoint(&self) -> (r: usize)
        ensures
            r == self.endpoint_spec(),
    {
        self.endpoint
    }

    /// One round of the server loop. Given the status of the receive and
    /// the request it brought: the reply that `handler` makes of the
    /// request, to be sent before the next receive; or the failure that
    /// ends the loop.
    pub fn reply_recv<F>(&self, handler: &F, status: usize, request: Req) -> (r: Result<Rsp, SeL4Error>)
        where
            F: Fn(Req) -> Rsp,
        requires
            status == STATUS_OK ==> handler.requires((request,)),
        ensures
            status == STATUS_OK ==> (r matches Ok(reply) && handler.ensures((request,), reply)),
            status != STATUS_OK ==> r == Err::<Rsp, SeL4Error>(SeL4Error { method: ApiMethod::ReplyRecv, code: status }),
    {
        match check_status(ApiMethod::ReplyRecv, status) {
            Ok(()) => Ok(handler(request)),
            Err(e) => Err(e),
        }
    }
}

/// How many rounds of the server loop, in order, brought a request: the
/// rounds before the first failed receive.
pub open spec fn served_rounds<Req>(rounds: Seq<(usize, Req)>) -> nat
    decreases rounds.len(),
{
    if rounds.len() == 0 || rounds[0].0 != STATUS_OK {
        0
    } else {
        1 + served_rounds(rounds.drop_first())
    }
}

/// A request that arrives once is served exactly once: a loop whose one
/// receive succeeds makes exactly one reply, and a loop whose receives after
/// it fail makes no other.
pub proof fn lemma_one_request_one_reply<Req>(q: Req, later: Seq<(usize, Req)>)
    requires
        later.len() == 0 || later[0].0 != STATUS_OK,
    ensures
        served_rounds(seq![(STATUS_OK, q)].add(later)) == 1,
{
    let all = seq![(STATUS_OK, q)].add(later);
    assert(all.drop_first() =~= later);
    assert(served_rounds(later) == 0);
}

impl<Req, Rsp> Responder<Req, Rsp> {
    /// The server loop over the rounds as they come, each the status of a
    /// receive and the request it brought: one reply per request, made by
    /// `handler`, in order, until the first failed receive, which ends the
    /// loop and is handed back. Nothing else ends it.
    pub fn serve<F>(&self, handler: &F, rounds: Vec<(usize, Req)>) -> (r: (Vec<Rsp>, Option<SeL4Error>))
        where
            F: Fn(Req) -> Rsp,
        requires
            forall|q: Req| handler.requires((q,)),
        ensures
            r.0@.len() == served_rounds(rounds@),
            forall|i: int| 0 <= i < r.0@.len() ==> handler.ensures((rounds@[i].1,), #[trigger] r.0@[i]),
            r.1 is None <==> r.0@.len() == rounds@.len(),
            r.1 matches Some(e) ==> e == (SeL4Error { method: ApiMethod::ReplyRecv, code: rounds@[r.0@.len() as int].0 }),
    {
        let ghost all = rounds@;
        let mut rest = rounds;
        let mut replies: Vec<Rsp> = Vec::new();
        while rest.len() > 0
            invariant
                all == rounds@,
                forall|q: Req| handler.requires((q,)),
                replies@.len() + rest@.len() == all.len(),
                rest@ == all.subrange(replies@.len() as int, all.len() as int),
                served_rounds(all) == replies@.len() + served_rounds(rest@),
                forall|i: int| 0 <= i < replies@.len() ==> handler.ensures((all[i].1,), #[trigger] replies@[i]),
            decreases rest@.len(),
        {
            let ghost before = rest@;
            let (status, request) = rest.remove(0);
            assert(before.drop_first() =~= rest@);
            match self.reply_recv(handler, status, request) {
                Ok(reply) => {
                    replies.push(reply);
                    assert(rest@ =~= all.subrange(replies@.len() as int, all.len() as int));
                },
                Err(e) => {
                    assert(before[0].0 == status && status != STATUS_OK);
                    assert(served_rounds(before) == 0);
                    assert(all[replies@.len() as int] == before[0]);
                    return (replies, Some(e));
                },
            }
        }
        (replies, None)
    }
}

/// The handler of a responder that serves empty requests: it has nothing to
/// compute and nothing to report.
pub fn to_be_changed() {
}

/// The invocations that build a channel, in order, each owed only where the
/// one before it succeeded: an endpoint retyped from `untyped` into `slot`
/// of the local table, then copies of it into the responder's and the
/// caller's slots.
pub fn call_channel_calls(
    untyped: &Untyped,
    local: &CNode,
    slot: &CNodeSlots,
    responder_slot: &CNodeSlots,
    caller_slot: &CNodeSlots,
) -> (r: Vec<KernelCall>)
    ensures
        r@ == seq![
            KernelCall::UntypedRetype {
                untyped: untyped@.cptr,
                object: ObjectType::Endpoint,
                dest_root: slot@.cptr,
                dest_offset: slot@.offset as usize,
                count: 1,
            },
            KernelCall::CNodeCopy {
                dest_root: responder_slot@.cptr,
                dest_index: responder_slot@.offset as usize,
                src_root: local.cptr_spec(),
                src_index: slot@.offset as usize,
            },
            KernelCall::CNodeCopy {
                dest_root: caller_slot@.cptr,
                dest_index: caller_slot@.offset as usize,
                src_root: local.cptr_spec(),
                src_index: slot@.offset as usize,
            },
        ],
{
    let mut out: Vec<KernelCall> = Vec::new();
    out.push(untyped.retype_call(ObjectType::Endpoint, slot, 1));
    out.push(
        KernelCall::CNodeCopy {
            dest_root: responder_slot.cptr(),
            dest_index: responder_slot.offset(),
            src_root: local.cptr(),
            src_index: slot.offset(),
        },
    );
    out.push(
        KernelCall::CNodeCopy {
            dest_root: caller_slot.cptr(),
            dest_index: caller_slot.offset(),
            src_root: local.cptr(),
            src_index: slot.offset(),
        },
    );
    assert(out@ =~= seq![out@[0], out@[1], out@[2]]);
    out
}

/// Given the statuses of `call_channel_calls`, in order (those after the
/// first failure are not read): the matched caller and responder, sharing
/// the endpoint; or the first failure.
pub fn call_channel<Req, Rsp>(
    untyped: Untyped,
    slot: CNodeSlots,
    responder_slot: CNodeSlots,
    caller_slot: CNodeSlots,
    statuses: &Vec<usize>,
) -> (r: Result<(Caller<Req, Rsp>, Responder<Req, Rsp>), SeL4Error>)
    requires
        untyped@.valid(),
        untyped@.size_bits >= ENDPOINT_BITS,
        slot.wf() && slot@.size == 1 && slot@.role == Role::Local,
        responder_slot.wf() && responder_slot@.size == 1 && responder_slot@.role == Role::Child,
        caller_slot.wf() && caller_slot@.size == 1 && caller_slot@.role == Role::Child,
        statuses@.len() == 3,
    ensures
        r is Ok <==> statuses@[0] == STATUS_OK && statuses@[1] == STATUS_OK && statuses@[2] == STATUS_OK,
        statuses@[0] != STATUS_OK ==> r == Err::<(Caller<Req, Rsp>, Responder<Req, Rsp>), SeL4Error>(
            SeL4Error { method: ApiMethod::UntypedRetype, code: statuses@[0] },
        ),
        statuses@[0] == STATUS_OK && statuses@[1] != STATUS_OK ==> r == Err::<
            (Caller<Req, Rsp>, Responder<Req, Rsp>),
            SeL4Error,
        >(SeL4Error { method: ApiMethod::CNodeCopy, code: statuses@[1] }),
        statuses@[0] == STATUS_OK && statuses@[1] == STATUS_OK && statuses@[2] != STATUS_OK ==> r == Err::<
            (Caller<Req, Rsp>, Responder<Req, Rsp>),
            SeL4Error,
        >(SeL4Error { method: ApiMethod::CNodeCopy, code: statuses@[2] }),
        r matches Ok(p) ==> p.0.endpoint_spec() == caller_slot@.offset && p.1.endpoint_spec()
            == responder_slot@.offset,
{
    check_status(ApiMethod::UntypedRetype, statuses[0])?;
    check_status(ApiMethod::CNodeCopy, statuses[1])?;
    check_status(ApiMethod::CNodeCopy, statuses[2])?;
    Ok(
        (
            Caller { endpoint: caller_slot.offset(), _shape: PhantomData },
            Responder { endpoint: responder_slot.offset(), _shape: PhantomData },
        ),
    )
}

} // verus!
