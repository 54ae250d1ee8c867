//! GSP Falcon mailbox handshake through the platform HAL, fail-closed.
//!
//! Never invents readiness: a response is only what the mailbox register held.

use vstd::prelude::*;

use crate::fault::HermesFault;
use crate::platform::{
    holds_unchanged, lemma_refusals_step, lemma_refusals_trans, refusals_grew, HermesPlatform, MmioOp,
    MmioWindow,
};
use crate::regs::ga102_gsp::{
    NV_PGSP_FALCON_ENGINE, NV_PGSP_FALCON_ENGINE_RESET_FALSE, NV_PGSP_FALCON_ENGINE_RESET_TRUE,
    NV_PGSP_FALCON_MAILBOX0, NV_PGSP_FALCON_MAILBOX1,
};

verus! {

broadcast use lemma_refusals_trans;

/// Host-side sequence numbers of the command and event rings.
#[derive(Clone, Copy, Debug, PartialEq, Eq, Structural)]
pub struct MailboxSequence {
    pub cmd: u32,
    pub event: u32,
}

#[derive(Clone, Copy, Debug, PartialEq, Eq, Structural)]
pub enum MailboxError {
    Platform(HermesFault),
    NotReady,
    Protocol,
    ResetStuck,
}

impl From<HermesFault> for MailboxError {
    fn from(value: HermesFault) -> (e: Self)
        ensures
            e == MailboxError::Platform(value),
    {
        MailboxError::Platform(value)
    }
}

impl vstd::std_specs::convert::FromSpecImpl<HermesFault> for MailboxError {
    open spec fn obeys_from_spec() -> bool {
        true
    }

    open spec fn from_spec(v: HermesFault) -> Self {
        MailboxError::Platform(v)
    }
}

/// The Falcon mailbox pair and engine register as read.
#[derive(Clone, Copy, Debug, PartialEq, Eq, Structural)]
pub struct MailboxSnapshot {
    pub mailbox0: u32,
    pub mailbox1: u32,
    pub engine: u32,
    pub ready_hint: bool,
}

/// The engine word says the Falcon is held in reset.
pub open spec fn engine_in_reset(engine: u32) -> bool {
    engine & NV_PGSP_FALCON_ENGINE_RESET_TRUE != 0
}

/// A snapshot of the three words: ready when the engine is out of reset and
/// MAILBOX1 holds a nonzero status word.
pub open spec fn spec_snapshot(mailbox0: u32, mailbox1: u32, engine: u32) -> MailboxSnapshot {
    MailboxSnapshot {
        mailbox0,
        mailbox1,
        engine,
        ready_hint: !engine_in_reset(engine) && mailbox1 != 0,
    }
}

/// Builds the snapshot of three mailbox words.
pub fn mailbox_snapshot(mailbox0: u32, mailbox1: u32, engine: u32) -> (s: MailboxSnapshot)
    ensures
        s == spec_snapshot(mailbox0, mailbox1, engine),
{
    let ready_hint = (engine & NV_PGSP_FALCON_ENGINE_RESET_TRUE) == 0 && mailbox1 != 0;
    MailboxSnapshot { mailbox0, mailbox1, engine, ready_hint }
}

/// What a platform answer becomes on the mailbox path: a value passes
/// through, a platform fault is wrapped.
pub open spec fn spec_platform_result<T>(r: Result<T, HermesFault>) -> Result<T, MailboxError> {
    match r {
        Ok(v) => Ok(v),
        Err(e) => Err(MailboxError::Platform(e)),
    }
}

/// Lifts a platform answer onto the mailbox path (see [`spec_platform_result`]).
pub fn platform_result<T>(r: Result<T, HermesFault>) -> (m: Result<T, MailboxError>)
    ensures
        m == spec_platform_result(r),
{
    match r {
        Ok(v) => Ok(v),
        Err(e) => Err(MailboxError::Platform(e)),
    }
}

/// What the engine word read back after a reset pulse means: still in reset
/// is `ResetStuck`.
pub open spec fn spec_reset_outcome(engine: u32) -> Result<(), MailboxError> {
    if engine_in_reset(engine) {
        Err(MailboxError::ResetStuck)
    } else {
        Ok(())
    }
}

/// Judges the engine word read back after a reset pulse (see
/// [`spec_reset_outcome`]).
pub fn reset_outcome(engine: u32) -> (r: Result<(), MailboxError>)
    ensures
        r == spec_reset_outcome(engine),
{
    if engine & NV_PGSP_FALCON_ENGINE_RESET_TRUE != 0 {
        Err(MailboxError::ResetStuck)
    } else {
        Ok(())
    }
}

/// One step a mailbox routine means to take through its BAR window.
pub ghost enum MmioStep {
    Write(u32, u32),
    Fence,
    Read(u32),
}

/// `op` is the access that `step` asks for, made through window `h`.
pub open spec fn step_matches(h: u32, step: MmioStep, op: MmioOp) -> bool {
    match step {
        MmioStep::Write(o, v) => op == MmioOp::Write(h, o, v, true) || op == MmioOp::Write(h, o, v, false),
        MmioStep::Fence => op == MmioOp::Fence(true) || op == MmioOp::Fence(false),
        MmioStep::Read(o) => op matches MmioOp::Read(h2, o2, _) && h2 == h && o2 == o,
    }
}

/// The access went through: the write was taken, the fence held, the read
/// returned a word.
pub open spec fn op_ok(op: MmioOp) -> bool {
    match op {
        MmioOp::Write(_, _, _, ok) => ok,
        MmioOp::Fence(ok) => ok,
        MmioOp::Read(_, _, w) => w is Some,
    }
}

/// The word a read returned (0 for anything else).
pub open spec fn read_value(op: MmioOp) -> u32 {
    match op {
        MmioOp::Read(_, _, Some(v)) => v,
        _ => 0,
    }
}

/// Every access in `ops` went through.
pub open spec fn all_ok(ops: Seq<MmioOp>) -> bool {
    forall|k: int| 0 <= k < ops.len() ==> op_ok(#[trigger] ops[k])
}

/// `ops` is `script` carried out in order through window `h`, stopping right
/// after the first access that did not go through.
pub open spec fn ran_script(h: u32, script: Seq<MmioStep>, ops: Seq<MmioOp>) -> bool {
    &&& ops.len() <= script.len()
    &&& forall|k: int| 0 <= k < ops.len() ==> step_matches(h, script[k], #[trigger] ops[k])
    &&& forall|k: int| 0 <= k < ops.len() - 1 ==> op_ok(#[trigger] ops[k])
    &&& ops.len() < script.len() ==> ops.len() > 0 && !op_ok(ops.last())
}

/// `after` is `before` with more entries at its end.
pub open spec fn log_extends(before: Seq<MmioOp>, after: Seq<MmioOp>) -> bool {
    before.len() <= after.len() && after.subrange(0, before.len() as int) == before
}

/// The entries `after` has beyond `before`.
pub open spec fn new_ops(before: Seq<MmioOp>, after: Seq<MmioOp>) -> Seq<MmioOp> {
    after.subrange(before.len() as int, after.len() as int)
}

/// A log with `ops` appended extends it, and `ops` is what was appended.
pub proof fn lemma_appended(l0: Seq<MmioOp>, ops: Seq<MmioOp>)
    ensures
        log_extends(l0, l0 + ops),
        new_ops(l0, l0 + ops) == ops,
{
    assert((l0 + ops).subrange(0, l0.len() as int) =~= l0);
    assert(new_ops(l0, l0 + ops) =~= ops);
}

/// A log that extends `l0` is `l0` followed by its new entries.
pub proof fn lemma_split(l0: Seq<MmioOp>, l: Seq<MmioOp>)
    requires
        log_extends(l0, l),
    ensures
        l == l0 + new_ops(l0, l),
{
    assert(l =~= l0 + new_ops(l0, l));
}

/// Only the MMIO and refusal logs grew: the platform holds what it held, and
/// was asked to isolate and to move DMA exactly as before.
pub open spec fn only_mmio<P: HermesPlatform>(before: P, after: P) -> bool {
    &&& holds_unchanged(before, after)
    &&& after.isolation_log() == before.isolation_log()
    &&& after.dma_log() == before.dma_log()
    &&& log_extends(before.mmio_log(), after.mmio_log())
    &&& refusals_grew(before.refusal_log(), after.refusal_log())
}

/// The result of a single access: its word when it went through, else a
/// platform fault.
pub open spec fn spec_ok_word(r: Result<u32, MailboxError>) -> Option<u32> {
    match r {
        Ok(v) => Some(v),
        Err(_) => None,
    }
}

/// A routine that ran `script` through `h` as `ops` answers `verdict` when
/// every step went through, and a platform fault otherwise.
pub open spec fn script_outcome<T>(
    h: u32,
    script: Seq<MmioStep>,
    ops: Seq<MmioOp>,
    r: Result<T, MailboxError>,
    verdict: Result<T, MailboxError>,
) -> bool {
    &&& ran_script(h, script, ops)
    &&& ops.len() == script.len() && all_ok(ops) ==> r == verdict
    &&& !(ops.len() == script.len() && all_ok(ops)) ==> r is Err && r->Err_0 is Platform
}

/// Assert reset, fence, deassert reset, fence, read ENGINE back.
pub open spec fn reset_script() -> Seq<MmioStep> {
    seq![
        MmioStep::Write(NV_PGSP_FALCON_ENGINE, NV_PGSP_FALCON_ENGINE_RESET_TRUE),
        MmioStep::Fence,
        MmioStep::Write(NV_PGSP_FALCON_ENGINE, NV_PGSP_FALCON_ENGINE_RESET_FALSE),
        MmioStep::Fence,
        MmioStep::Read(NV_PGSP_FALCON_ENGINE),
    ]
}

/// A reset pulse through `h` made the accesses `ops` and answered `r`: the
/// verdict on the ENGINE word read back.
pub open spec fn reset_pulse_ran(h: u32, ops: Seq<MmioOp>, r: Result<(), MailboxError>) -> bool {
    script_outcome(h, reset_script(), ops, r, spec_reset_outcome(read_value(ops[4])))
}

/// Read MAILBOX0, MAILBOX1 and ENGINE.
pub open spec fn snapshot_script() -> Seq<MmioStep> {
    seq![
        MmioStep::Read(NV_PGSP_FALCON_MAILBOX0),
        MmioStep::Read(NV_PGSP_FALCON_MAILBOX1),
        MmioStep::Read(NV_PGSP_FALCON_ENGINE),
    ]
}

/// A snapshot through `h` made the accesses `ops` and answered `r`: the three
/// words read.
pub open spec fn snapshot_ran(h: u32, ops: Seq<MmioOp>, r: Result<MailboxSnapshot, MailboxError>) -> bool {
    script_outcome(
        h,
        snapshot_script(),
        ops,
        r,
        Ok(spec_snapshot(read_value(ops[0]), read_value(ops[1]), read_value(ops[2]))),
    )
}

/// Clear MAILBOX1, post `command` to MAILBOX0, fence.
pub open spec fn post_script(command: u32) -> Seq<MmioStep> {
    seq![
        MmioStep::Write(NV_PGSP_FALCON_MAILBOX1, 0),
        MmioStep::Write(NV_PGSP_FALCON_MAILBOX0, command),
        MmioStep::Fence,
    ]
}

/// A post of `command` through `h` with up to `max_polls` polls made the
/// accesses `ops` and answered `r`: the post steps in order (stopping at a
/// failure), then reads of MAILBOX1 that returned 0 until one returned a
/// nonzero word (the answer), one failed (a platform fault) or `max_polls`
/// were made (`NotReady`).
pub open spec fn rpc_ran(h: u32, command: u32, max_polls: u32, ops: Seq<MmioOp>, r: Result<u32, MailboxError>) -> bool {
    if ops.len() < 3 || !all_ok(ops.subrange(0, 3)) {
        &&& ops.len() <= 3
        &&& ran_script(h, post_script(command), ops)
        &&& r is Err && r->Err_0 is Platform
    } else {
        let polls = ops.subrange(3, ops.len() as int);
        &&& ran_script(h, post_script(command), ops.subrange(0, 3))
        &&& polls.len() <= max_polls
        &&& forall|k: int|
            0 <= k < polls.len() - 1 ==> #[trigger] polls[k] == MmioOp::Read(
                h,
                NV_PGSP_FALCON_MAILBOX1,
                Some(0),
            )
        &&& polls.len() == 0 ==> max_polls == 0 && r == Err::<u32, MailboxError>(MailboxError::NotReady)
        &&& polls.len() > 0 ==> match polls.last() {
            MmioOp::Read(h2, o, Some(v)) => h2 == h && o == NV_PGSP_FALCON_MAILBOX1 && if v != 0 {
                r == Ok::<u32, MailboxError>(v)
            } else {
                polls.len() == max_polls && r == Err::<u32, MailboxError>(MailboxError::NotReady)
            },
            MmioOp::Read(h2, o, None) => h2 == h && o == NV_PGSP_FALCON_MAILBOX1 && r is Err
                && r->Err_0 is Platform,
            _ => false,
        }
    }
}

fn read_word<P: HermesPlatform>(platform: &mut P, bar: MmioWindow, offset: u32) -> (r: Result<
    u32,
    MailboxError,
>)
    ensures
        holds_unchanged(*old(platform), *final(platform)),
        final(platform).isolation_log() == old(platform).isolation_log(),
        final(platform).dma_log() == old(platform).dma_log(),
        final(platform).mmio_log() == old(platform).mmio_log().push(
            MmioOp::Read(bar.handle, offset, spec_ok_word(r)),
        ),
        r is Err ==> r->Err_0 is Platform,
        r is Ok ==> final(platform).refusal_log() == old(platform).refusal_log(),
        r matches Err(MailboxError::Platform(e)) ==> final(platform).refusal_log() == old(
            platform,
        ).refusal_log().push(e),
        refusals_grew(old(platform).refusal_log(), final(platform).refusal_log()),
{
    let r = platform_result(platform.read32(bar, offset));
    proof {
        lemma_refusals_step(old(platform).refusal_log(), platform.refusal_log());
    }
    r
}

fn write_word<P: HermesPlatform>(platform: &mut P, bar: MmioWindow, offset: u32, value: u32) -> (r:
    Result<(), MailboxError>)
    ensures
        holds_unchanged(*old(platform), *final(platform)),
        final(platform).isolation_log() == old(platform).isolation_log(),
        final(platform).dma_log() == old(platform).dma_log(),
        final(platform).mmio_log() == old(platform).mmio_log().push(
            MmioOp::Write(bar.handle, offset, value, r is Ok),
        ),
        r is Err ==> r->Err_0 is Platform,
        r is Ok ==> final(platform).refusal_log() == old(platform).refusal_log(),
        r matches Err(MailboxError::Platform(e)) ==> final(platform).refusal_log() == old(
            platform,
        ).refusal_log().push(e),
        refusals_grew(old(platform).refusal_log(), final(platform).refusal_log()),
{
    let r = platform_result(platform.write32(bar, offset, value));
    proof {
        lemma_refusals_step(old(platform).refusal_log(), platform.refusal_log());
    }
    r
}

fn fence<P: HermesPlatform>(platform: &mut P) -> (r: Result<(), MailboxError>)
    ensures
        holds_unchanged(*old(platform), *final(platform)),
        final(platform).isolation_log() == old(platform).isolation_log(),
        final(platform).dma_log() == old(platform).dma_log(),
        final(platform).mmio_log() == old(platform).mmio_log().push(MmioOp::Fence(r is Ok)),
        r is Err ==> r->Err_0 is Platform,
        r is Ok ==> final(platform).refusal_log() == old(platform).refusal_log(),
        r matches Err(MailboxError::Platform(e)) ==> final(platform).refusal_log() == old(
            platform,
        ).refusal_log().push(e),
        refusals_grew(old(platform).refusal_log(), final(platform).refusal_log()),
{
    let r = platform_result(platform.io_fence());
    proof {
        lemma_refusals_step(old(platform).refusal_log(), platform.refusal_log());
    }
    r
}

/// Reads MAILBOX0, MAILBOX1 and the engine register; the ready hint is derived
/// from what was read, never assumed (see [`snapshot_ran`]).
pub fn snapshot_mailbox<P: HermesPlatform>(platform: &mut P, bar: MmioWindow) -> (r: Result<
    MailboxSnapshot,
    MailboxError,
>)
    ensures
        only_mmio(*old(platform), *final(platform)),
        snapshot_ran(bar.handle, new_ops(old(platform).mmio_log(), final(platform).mmio_log()), r),
{
    let ghost l0 = platform.mmio_log();
    let mailbox0 = read_word(platform, bar, NV_PGSP_FALCON_MAILBOX0);
    let mailbox0 = match mailbox0 {
        Ok(v) => v,
        Err(e) => {
            proof {
                assert(platform.mmio_log() =~= l0 + seq![platform.mmio_log().last()]);
            lemma_appended(l0, seq![platform.mmio_log().last()]);
            }
            return Err(e);
        },
    };
    let mailbox1 = read_word(platform, bar, NV_PGSP_FALCON_MAILBOX1);
    let mailbox1 = match mailbox1 {
        Ok(v) => v,
        Err(e) => {
            proof {
                assert(platform.mmio_log() =~= l0 + seq![
                    MmioOp::Read(bar.handle, NV_PGSP_FALCON_MAILBOX0, Some(mailbox0)),
                    platform.mmio_log().last(),
                ]);
            lemma_appended(l0, seq![
                    MmioOp::Read(bar.handle, NV_PGSP_FALCON_MAILBOX0, Some(mailbox0)),
                    platform.mmio_log().last(),
                ]);
            }
            return Err(e);
        },
    };
    let engine = read_word(platform, bar, NV_PGSP_FALCON_ENGINE);
    proof {
        assert(platform.mmio_log() =~= l0 + seq![
            MmioOp::Read(bar.handle, NV_PGSP_FALCON_MAILBOX0, Some(mailbox0)),
            MmioOp::Read(bar.handle, NV_PGSP_FALCON_MAILBOX1, Some(mailbox1)),
            platform.mmio_log().last(),
        ]);
    lemma_appended(l0, seq![
            MmioOp::Read(bar.handle, NV_PGSP_FALCON_MAILBOX0, Some(mailbox0)),
            MmioOp::Read(bar.handle, NV_PGSP_FALCON_MAILBOX1, Some(mailbox1)),
            platform.mmio_log().last(),
        ]);
    }
    let engine = match engine {
        Ok(v) => v,
        Err(e) => {
            return Err(e);
        },
    };
    Ok(mailbox_snapshot(mailbox0, mailbox1, engine))
}

/// Pulses the Falcon engine reset (assert, then deassert) and checks that the
/// engine left reset (see [`reset_pulse_ran`]).
pub fn falcon_reset_pulse<P: HermesPlatform>(platform: &mut P, bar: MmioWindow) -> (r: Result<
    (),
    MailboxError,
>)
    ensures
        only_mmio(*old(platform), *final(platform)),
        reset_pulse_ran(bar.handle, new_ops(old(platform).mmio_log(), final(platform).mmio_log()), r),
{
    let ghost l0 = platform.mmio_log();
    let ghost h = bar.handle;
    let w1 = write_word(platform, bar, NV_PGSP_FALCON_ENGINE, NV_PGSP_FALCON_ENGINE_RESET_TRUE);
    let ghost o1 = platform.mmio_log().last();
    if let Err(e) = w1 {
        proof {
            assert(platform.mmio_log() =~= l0 + seq![o1]);
        lemma_appended(l0, seq![o1]);
        }
        return Err(e);
    }
    let f1 = fence(platform);
    let ghost o2 = platform.mmio_log().last();
    if let Err(e) = f1 {
        proof {
            assert(platform.mmio_log() =~= l0 + seq![o1, o2]);
        lemma_appended(l0, seq![o1, o2]);
        }
        return Err(e);
    }
    let w2 = write_word(platform, bar, NV_PGSP_FALCON_ENGINE, NV_PGSP_FALCON_ENGINE_RESET_FALSE);
    let ghost o3 = platform.mmio_log().last();
    if let Err(e) = w2 {
        proof {
            assert(platform.mmio_log() =~= l0 + seq![o1, o2, o3]);
        lemma_appended(l0, seq![o1, o2, o3]);
        }
        return Err(e);
    }
    let f2 = fence(platform);
    let ghost o4 = platform.mmio_log().last();
    if let Err(e) = f2 {
        proof {
            assert(platform.mmio_log() =~= l0 + seq![o1, o2, o3, o4]);
        lemma_appended(l0, seq![o1, o2, o3, o4]);
        }
        return Err(e);
    }
    let eng = read_word(platform, bar, NV_PGSP_FALCON_ENGINE);
    let ghost o5 = platform.mmio_log().last();
    proof {
        assert(platform.mmio_log() =~= l0 + seq![o1, o2, o3, o4, o5]);
    lemma_appended(l0, seq![o1, o2, o3, o4, o5]);
    }
    match eng {
        Ok(v) => reset_outcome(v),
        Err(e) => Err(e),
    }
}

/// Clears MAILBOX1, posts `command` into MAILBOX0 and polls MAILBOX1 up to
/// `max_polls` times. The answer is the first nonzero MAILBOX1 word read;
/// none in time is `NotReady`. No answer is made up (see [`rpc_ran`]).
pub fn rpc_post_u32<P: HermesPlatform>(
    platform: &mut P,
    bar: MmioWindow,
    command: u32,
    max_polls: u32,
) -> (r: Result<u32, MailboxError>)
    ensures
        only_mmio(*old(platform), *final(platform)),
        rpc_ran(bar.handle, command, max_polls, new_ops(old(platform).mmio_log(), final(platform).mmio_log()), r),
        r is Ok ==> r->Ok_0 != 0,
        r is Err ==> r->Err_0 is Platform || r->Err_0 == MailboxError::NotReady,
        max_polls == 0 ==> r is Err,
{
    let ghost l0 = platform.mmio_log();
    let w1 = write_word(platform, bar, NV_PGSP_FALCON_MAILBOX1, 0);
    let ghost o1 = platform.mmio_log().last();
    if let Err(e) = w1 {
        proof {
            assert(platform.mmio_log() =~= l0 + seq![o1]);
        lemma_appended(l0, seq![o1]);
        }
        return Err(e);
    }
    let w2 = write_word(platform, bar, NV_PGSP_FALCON_MAILBOX0, command);
    let ghost o2 = platform.mmio_log().last();
    if let Err(e) = w2 {
        proof {
            assert(platform.mmio_log() =~= l0 + seq![o1, o2]);
        lemma_appended(l0, seq![o1, o2]);
        }
        return Err(e);
    }
    let f = fence(platform);
    let ghost o3 = platform.mmio_log().last();
    proof {
        assert(platform.mmio_log() =~= l0 + seq![o1, o2, o3]);
    lemma_appended(l0, seq![o1, o2, o3]);
    }
    if let Err(e) = f {
        proof {
            let ops = seq![o1, o2, o3];
            assert(ops.subrange(0, 3) =~= ops);
            assert(!op_ok(ops.subrange(0, 3)[2]));
        }
        return Err(e);
    }
    let ghost head = seq![o1, o2, o3];
    let ghost h = bar.handle;
    proof {
        assert(all_ok(head));
        assert(ran_script(h, post_script(command), head));
    }
    let mut polls: u32 = 0;
    while polls < max_polls
        invariant
            polls <= max_polls,
            h == bar.handle,
            holds_unchanged(*old(platform), *platform),
            platform.isolation_log() == old(platform).isolation_log(),
            platform.dma_log() == old(platform).dma_log(),
            l0 == old(platform).mmio_log(),
            platform.refusal_log() == old(platform).refusal_log(),
            all_ok(head),
            head.len() == 3,
            ran_script(h, post_script(command), head),
            platform.mmio_log() == l0 + head + Seq::new(
                polls as nat,
                |k: int| MmioOp::Read(h, NV_PGSP_FALCON_MAILBOX1, Some(0)),
            ),
        decreases max_polls - polls,
    {
        let ghost zeros = Seq::new(polls as nat, |k: int| MmioOp::Read(h, NV_PGSP_FALCON_MAILBOX1, Some(0)));
        let resp = read_word(platform, bar, NV_PGSP_FALCON_MAILBOX1);
        let ghost last = platform.mmio_log().last();
        proof {
            let ops = head + zeros.push(last);
            assert(platform.mmio_log() =~= l0 + ops);
            lemma_appended(l0, ops);
            assert(ops.subrange(0, 3) =~= head);
            assert(ops.subrange(3, ops.len() as int) =~= zeros.push(last));
        }
        let resp = match resp {
            Ok(v) => v,
            Err(e) => {
                return Err(e);
            },
        };
        if resp != 0 {
            proof {
                lemma_refusals_step(old(platform).refusal_log(), platform.refusal_log());
            }
            return Ok(resp);
        }
        platform.relax();
        proof {
            assert(zeros.push(last) =~= Seq::new(
                (polls + 1) as nat,
                |k: int| MmioOp::Read(h, NV_PGSP_FALCON_MAILBOX1, Some(0)),
            ));
            assert(head + zeros.push(last) =~= head + zeros + seq![last]);
        }
        polls = polls + 1;
    }
    proof {
        let zeros = Seq::new(polls as nat, |k: int| MmioOp::Read(h, NV_PGSP_FALCON_MAILBOX1, Some(0)));
        let ops = head + zeros;
        assert(platform.mmio_log() =~= l0 + ops);
        lemma_appended(l0, ops);
        assert(ops.subrange(0, 3) =~= head);
        assert(ops.subrange(3, ops.len() as int) =~= zeros);
        lemma_refusals_step(old(platform).refusal_log(), platform.refusal_log());
    }
    Err(MailboxError::NotReady)
}

/// Evidence extracted from the mailbox after the firmware stage.
#[derive(Clone, Copy, Debug, PartialEq, Eq, Structural)]
pub struct MailboxEvidence {
    pub mailbox_ok: bool,
    pub ready_ok: bool,
    pub last_response: u32,
}

/// Command token of the boot handshake ('HELL').
pub const RPC_CMD_HELLO: u32 = 0x4845_4c4c;

/// Acknowledgement a test double answers with ('ACK!').
pub const RPC_RSP_ACK: u32 = 0x4143_4b21;

/// The handshake outcome of a mailbox reply: an answer is evidence, a timeout
/// is the absence of evidence, any other fault stays a fault.
pub open spec fn spec_handshake_evidence(reply: Result<u32, MailboxError>) -> Result<
    MailboxEvidence,
    MailboxError,
> {
    match reply {
        Ok(resp) => Ok(MailboxEvidence { mailbox_ok: true, ready_ok: resp != 0, last_response: resp }),
        Err(MailboxError::NotReady) => Ok(
            MailboxEvidence { mailbox_ok: false, ready_ok: false, last_response: 0 },
        ),
        Err(e) => Err(e),
    }
}

/// Turns a mailbox reply into handshake evidence.
pub fn handshake_evidence(reply: Result<u32, MailboxError>) -> (r: Result<
    MailboxEvidence,
    MailboxError,
>)
    ensures
        r == spec_handshake_evidence(reply),
{
    match reply {
        Ok(resp) => Ok(MailboxEvidence { mailbox_ok: true, ready_ok: resp != 0, last_response: resp }),
        Err(MailboxError::NotReady) => Ok(
            MailboxEvidence { mailbox_ok: false, ready_ok: false, last_response: 0 },
        ),
        Err(e) => Err(e),
    }
}

/// A boot handshake through `h` made the accesses `ops` and answered `r`: a
/// reset pulse, then (if it succeeded) a snapshot, then (if the engine was out
/// of reset) a post of HELLO; the answer is the evidence of that post's reply.
pub open spec fn handshake_ran(h: u32, max_polls: u32, ops: Seq<MmioOp>, r: Result<MailboxEvidence, MailboxError>) -> bool {
    exists|a: Seq<MmioOp>, b: Seq<MmioOp>, c: Seq<MmioOp>, r1: Result<(), MailboxError>, r2: Result<MailboxSnapshot, MailboxError>, r3: Result<u32, MailboxError>|
        #![trigger reset_pulse_ran(h, a, r1), snapshot_ran(h, b, r2), rpc_ran(h, RPC_CMD_HELLO, max_polls, c, r3)]
        {
            &&& ops == a + b + c
            &&& reset_pulse_ran(h, a, r1)
            &&& r1 is Err ==> b.len() == 0 && c.len() == 0 && r == Err::<MailboxEvidence, MailboxError>(r1->Err_0)
            &&& r1 is Ok ==> snapshot_ran(h, b, r2)
            &&& r1 is Ok && r2 is Err ==> c.len() == 0 && r == Err::<MailboxEvidence, MailboxError>(r2->Err_0)
            &&& r1 is Ok && r2 is Ok && engine_in_reset(r2->Ok_0.engine) ==> c.len() == 0 && r == Err::<MailboxEvidence, MailboxError>(MailboxError::ResetStuck)
            &&& r1 is Ok && r2 is Ok && !engine_in_reset(r2->Ok_0.engine) ==> rpc_ran(h, RPC_CMD_HELLO, max_polls, c, r3) && r == spec_handshake_evidence(r3)
        }
}

/// Minimal boot handshake: reset, snapshot, post HELLO, observe the answer.
/// Readiness is claimed only with a nonzero answer read from MAILBOX1 (see
/// [`handshake_ran`]).
pub fn boot_handshake<P: HermesPlatform>(platform: &mut P, bar: MmioWindow, max_polls: u32) -> (r:
    Result<MailboxEvidence, MailboxError>)
    ensures
        only_mmio(*old(platform), *final(platform)),
        handshake_ran(bar.handle, max_polls, new_ops(old(platform).mmio_log(), final(platform).mmio_log()), r),
        r is Ok ==> (r->Ok_0.mailbox_ok <==> r->Ok_0.ready_ok),
        r is Ok ==> (r->Ok_0.ready_ok <==> r->Ok_0.last_response != 0),
        r is Ok && max_polls == 0 ==> !r->Ok_0.mailbox_ok,
        r is Err ==> r->Err_0 is Platform || r->Err_0 == MailboxError::ResetStuck,
{
    let ghost l0 = platform.mmio_log();
    let ghost h = bar.handle;
    let ghost empty = Seq::<MmioOp>::empty();
    let r1 = falcon_reset_pulse(platform, bar);
    let ghost l1 = platform.mmio_log();
    let ghost a = new_ops(l0, l1);
    proof {
        lemma_split(l0, l1);
    }
    if let Err(e) = r1 {
        proof {
            assert(a =~= a + empty + empty);
            let w2: Result<MailboxSnapshot, MailboxError> = Err(e);
            let w3: Result<u32, MailboxError> = Err(e);
            let t1 = reset_pulse_ran(h, a, r1);
            let t2 = snapshot_ran(h, empty, w2);
            let t3 = rpc_ran(h, RPC_CMD_HELLO, max_polls, empty, w3);
            assert(t1);
            assert(handshake_ran(h, max_polls, a + empty + empty, Err::<MailboxEvidence, MailboxError>(e)));
        }
        return Err(e);
    }
    let r2 = snapshot_mailbox(platform, bar);
    let ghost l2 = platform.mmio_log();
    let ghost b = new_ops(l1, l2);
    proof {
        lemma_split(l1, l2);
        assert(l2 =~= l0 + (a + b));
        lemma_appended(l0, a + b);
    }
    let snap = match r2 {
        Ok(s) => s,
        Err(e) => {
            proof {
                assert(a + b =~= a + b + empty);
                let w3: Result<u32, MailboxError> = Err(e);
                let t1 = reset_pulse_ran(h, a, r1);
                let t2 = snapshot_ran(h, b, r2);
                let t3 = rpc_ran(h, RPC_CMD_HELLO, max_polls, empty, w3);
                assert(t1 && t2);
                assert(handshake_ran(h, max_polls, a + b + empty, Err::<MailboxEvidence, MailboxError>(e)));
            }
            return Err(e);
        },
    };
    if let Err(e) = reset_outcome(snap.engine) {
        proof {
            assert(a + b =~= a + b + empty);
            let w3: Result<u32, MailboxError> = Err(e);
            let t1 = reset_pulse_ran(h, a, r1);
                let t2 = snapshot_ran(h, b, r2);
                let t3 = rpc_ran(h, RPC_CMD_HELLO, max_polls, empty, w3);
                assert(t1 && t2);
                assert(handshake_ran(h, max_polls, a + b + empty, Err::<MailboxEvidence, MailboxError>(e)));
        }
        return Err(e);
    }
    let reply = rpc_post_u32(platform, bar, RPC_CMD_HELLO, max_polls);
    let ghost l3 = platform.mmio_log();
    let ghost c = new_ops(l2, l3);
    proof {
        lemma_split(l2, l3);
        assert(l3 =~= l0 + (a + b + c));
        lemma_appended(l0, a + b + c);
        assert(reset_pulse_ran(h, a, r1) && snapshot_ran(h, b, r2) && rpc_ran(h, RPC_CMD_HELLO, max_polls, c, reply));
    }
    handshake_evidence(reply)
}

} // verus!
