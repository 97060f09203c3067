//! The generation operations, over one context that holds the clock sequence
//! counter and the node identifier kept for the context's lifetime.
use vstd::prelude::*;

use crate::ident::{GenError, Uuid};
use crate::layout::{
    clock_seq_of, encode_v1, encode_v4, encode_v6, lemma_clock_seq, lemma_ticks_and_node,
    lemma_v1_tags, lemma_v4_tags, lemma_v6_tags, node_of, ticks_of_unix, v1_layout, v4_layout,
    v1_ticks_of, v6_layout, v6_ticks_of, variant_of, version_of,
};
use crate::outside::{fill_random, unix_to_ticks};
use crate::timestamp::{next_count, Context};

verus! {

/// What a generator holds: the next clock sequence value, and the persisted
/// node identifier once it has been drawn.
pub type GenState = (u16, Option<[u8; 6]>);

/// The time-based layout of the given version (1 or 6).
pub open spec fn time_layout(version: u8, ticks: u64, counter: u16, node: Seq<u8>) -> Seq<u8> {
    if version == 1 {
        v1_layout(ticks, counter, node)
    } else {
        v6_layout(ticks, counter, node)
    }
}

/// A node identifier drawn at random: bit 0 of byte 0 is set.
pub open spec fn is_random_node(node: Seq<u8>) -> bool {
    node.len() == 6 && node[0] & 1u8 == 1u8
}

/// A successful call of a persisted-node generator of the given layout, at
/// the given moment, from state `pre` to state `post`, that returned `u`: the
/// node is drawn on the first call and kept, the counter moves on by one.
pub open spec fn persisted_call(
    version: u8,
    pre: GenState,
    post: GenState,
    secs: u64,
    nanos: u32,
    u: Seq<u8>,
) -> bool {
    &&& post.1 is Some
    &&& pre.1 is Some ==> post.1 == pre.1
    &&& pre.1 is None ==> is_random_node(post.1->0@)
    &&& post.0 == next_count(pre.0)
    &&& u == time_layout(version, ticks_of_unix(secs, nanos) as u64, pre.0, post.1->0@)
}

/// A successful call of a random-node generator of the given layout: a fresh
/// random node, the persisted node untouched, the counter moved on by one.
pub open spec fn random_node_call(
    version: u8,
    pre: GenState,
    post: GenState,
    secs: u64,
    nanos: u32,
    u: Seq<u8>,
) -> bool {
    &&& post == (next_count(pre.0), pre.1)
    &&& is_random_node(node_of(u))
    &&& u == time_layout(version, ticks_of_unix(secs, nanos) as u64, pre.0, node_of(u))
}

/// A successful call of any time-based generator.
pub open spec fn time_call(
    version: u8,
    pre: GenState,
    post: GenState,
    secs: u64,
    nanos: u32,
    u: Seq<u8>,
) -> bool {
    persisted_call(version, pre, post, secs, nanos, u) || random_node_call(
        version,
        pre,
        post,
        secs,
        nanos,
        u,
    )
}

/// The tick count read back from a time-based identifier of the given layout.
pub open spec fn ticks_read_back(version: u8, u: Seq<u8>) -> u64 {
    if version == 1 {
        v1_ticks_of(u)
    } else {
        v6_ticks_of(u)
    }
}

/// The node bytes of a successful time-based call are six bytes long.
proof fn lemma_call_node(version: u8, pre: GenState, post: GenState, secs: u64, nanos: u32, u: Seq<u8>)
    requires
        time_call(version, pre, post, secs, nanos, u),
    ensures
        ({
            let node = if persisted_call(version, pre, post, secs, nanos, u) {
                post.1->0@
            } else {
                node_of(u)
            };
            node.len() == 6 && u == time_layout(version, ticks_of_unix(secs, nanos) as u64, pre.0, node)
        }),
{
}

/// Two successive successful calls of the persisted-node generators, of
/// either layout, carry the same node bytes: those kept in the context.
pub proof fn lemma_persisted_node_shared(
    v1: u8,
    v2: u8,
    s0: GenState,
    s1: GenState,
    s2: GenState,
    secs1: u64,
    nanos1: u32,
    secs2: u64,
    nanos2: u32,
    u1: Seq<u8>,
    u2: Seq<u8>,
)
    requires
        persisted_call(v1, s0, s1, secs1, nanos1, u1),
        persisted_call(v2, s1, s2, secs2, nanos2, u2),
    ensures
        node_of(u1) == node_of(u2),
        node_of(u2) == s2.1->0@,
{
    lemma_ticks_and_node(ticks_of_unix(secs1, nanos1) as u64, s0.0, s1.1->0@);
    lemma_ticks_and_node(ticks_of_unix(secs2, nanos2) as u64, s1.0, s2.1->0@);
}

/// The clock sequences carried by two successive successful time-based calls
/// differ by exactly one, modulo the 2^14 values of the encoded field.
pub proof fn lemma_clock_seq_successive(
    v1: u8,
    v2: u8,
    s0: GenState,
    s1: GenState,
    s2: GenState,
    secs1: u64,
    nanos1: u32,
    secs2: u64,
    nanos2: u32,
    u1: Seq<u8>,
    u2: Seq<u8>,
)
    requires
        time_call(v1, s0, s1, secs1, nanos1, u1),
        time_call(v2, s1, s2, secs2, nanos2, u2),
    ensures
        clock_seq_of(u2) == (clock_seq_of(u1) + 1) % 16384,
{
    lemma_call_node(v1, s0, s1, secs1, nanos1, u1);
    lemma_call_node(v2, s1, s2, secs2, nanos2, u2);
    let n1 = if persisted_call(v1, s0, s1, secs1, nanos1, u1) { s1.1->0@ } else { node_of(u1) };
    let n2 = if persisted_call(v2, s1, s2, secs2, nanos2, u2) { s2.1->0@ } else { node_of(u2) };
    lemma_clock_seq(ticks_of_unix(secs1, nanos1) as u64, s0.0, n1);
    lemma_clock_seq(ticks_of_unix(secs2, nanos2) as u64, s1.0, n2);
    let c = s0.0;
    assert(((c + 1) % 0x1_0000) % 16384 == (c % 16384 + 1) % 16384) by (nonlinear_arith);
}

/// The tick count read back from an identifier that a successful time-based
/// call returned is that of the moment handed to the call, to 60 bits.
pub proof fn lemma_ticks_read_back(
    version: u8,
    pre: GenState,
    post: GenState,
    secs: u64,
    nanos: u32,
    u: Seq<u8>,
)
    requires
        time_call(version, pre, post, secs, nanos, u),
        ticks_of_unix(secs, nanos) <= u64::MAX,
    ensures
        ticks_read_back(version, u) == ticks_of_unix(secs, nanos) % 0x1000_0000_0000_0000,
{
    lemma_call_node(version, pre, post, secs, nanos, u);
    let n = if persisted_call(version, pre, post, secs, nanos, u) { post.1->0@ } else { node_of(u) };
    lemma_ticks_and_node(ticks_of_unix(secs, nanos) as u64, pre.0, n);
}

/// The identifier context: the shared clock sequence counter and the node
/// identifier that is drawn once and then kept.
#[derive(Debug)]
pub struct Generator {
    clock: Context,
    node: Option<[u8; 6]>,
}

impl View for Generator {
    type V = GenState;

    closed spec fn view(&self) -> GenState {
        (self.clock@, self.node)
    }
}

/// Marks a random node identifier: bit 0 of byte 0 is set, the rest kept.
pub fn mark_node(raw: [u8; 6]) -> (r: [u8; 6])
    ensures
        r[0] == raw[0] | 1u8,
        forall|i: int| 1 <= i < 6 ==> r[i] == raw[i],
        is_random_node(r@),
{
    let mut r = raw;
    r[0] = raw[0] | 1u8;
    let b = raw[0];
    assert((b | 1u8) & 1u8 == 1u8) by (bit_vector);
    r
}

/// Six fresh random bytes, marked as a random node identifier.
pub fn gen_random_node_id() -> (r: Result<[u8; 6], GenError>)
    ensures
        r is Ok ==> is_random_node(r->Ok_0@),
        r is Err ==> r->Err_0 == GenError::EntropyUnavailable,
{
    let mut raw = [0u8; 6];
    match fill_random(&mut raw) {
        Ok(()) => Ok(mark_node(raw)),
        Err(_) => Err(GenError::EntropyUnavailable),
    }
}

/// The identifier of the fully random kind built from sixteen random bytes.
pub fn uuid_v4_from_random(random: [u8; 16]) -> (r: Uuid)
    ensures
        r@ == v4_layout(random@),
        version_of(r@) == 4,
        variant_of(r@) == 2,
{
    proof {
        lemma_v4_tags(random@);
    }
    Uuid::new(encode_v4(random))
}

/// A fully random identifier: version 4, variant `10`, the other 122 bits
/// drawn from the operating system's random source.
pub fn gen_uuid_v4() -> (r: Result<Uuid, GenError>)
    ensures
        r is Ok ==> version_of(r->Ok_0@) == 4 && variant_of(r->Ok_0@) == 2,
        r is Err ==> r->Err_0 == GenError::EntropyUnavailable,
{
    let mut random = [0u8; 16];
    match fill_random(&mut random) {
        Ok(()) => Ok(uuid_v4_from_random(random)),
        Err(_) => Err(GenError::EntropyUnavailable),
    }
}

/// The all-zero identifier.
pub fn gen_uuid_nil() -> (r: Uuid)
    ensures
        r@ == Seq::new(16, |i: int| 0u8),
{
    let r = Uuid::new([0u8; 16]);
    assert(r@ =~= Seq::new(16, |i: int| 0u8));
    r
}

impl Generator {
    /// A context whose counter starts at `counter` and whose node identifier
    /// is not drawn yet.
    pub fn new(counter: u16) -> (r: Generator)
        ensures
            r@ == (counter, None::<[u8; 6]>),
    {
        Generator { clock: Context::new(counter), node: None }
    }

    /// The node identifier kept for this context: drawn and marked on the
    /// first call, the same bytes on every later one.
    pub fn persisted_node(&mut self) -> (r: Result<[u8; 6], GenError>)
        ensures
            old(self)@.1 is Some ==> r == Ok::<[u8; 6], GenError>(old(self)@.1->0)
                && final(self)@ == old(self)@,
            old(self)@.1 is None && r is Ok ==> final(self)@ == (old(self)@.0, Some(r->Ok_0))
                && is_random_node(r->Ok_0@),
            r is Err ==> old(self)@.1 is None && final(self)@ == old(self)@ && r->Err_0
                == GenError::EntropyUnavailable,
    {
        match self.node {
            Some(n) => Ok(n),
            None => {
                let n = gen_random_node_id()?;
                self.node = Some(n);
                Ok(n)
            },
        }
    }

    /// The next clock sequence value and the tick count of the given moment.
    fn next_ticks(&mut self, secs: u64, nanos: u32) -> (r: (u64, u16))
        requires
            ticks_of_unix(secs, nanos) <= u64::MAX,
        ensures
            r == (ticks_of_unix(secs, nanos) as u64, old(self)@.0),
            final(self)@ == (next_count(old(self)@.0), old(self)@.1),
    {
        let counter = self.clock.next();
        (unix_to_ticks(secs, nanos), counter)
    }

    /// A time-low-first identifier with the persisted node.
    pub fn gen_uuid_v1(&mut self, secs: u64, nanos: u32) -> (r: Result<Uuid, GenError>)
        requires
            ticks_of_unix(secs, nanos) <= u64::MAX,
        ensures
            r is Ok ==> persisted_call(1, old(self)@, final(self)@, secs, nanos, r->Ok_0@),
            r is Ok ==> version_of(r->Ok_0@) == 1 && variant_of(r->Ok_0@) == 2,
            r is Err ==> old(self)@.1 is None && final(self)@ == old(self)@ && r->Err_0
                == GenError::EntropyUnavailable,
            old(self)@.1 is Some ==> r is Ok,
    {
        let node = self.persisted_node()?;
        let (ticks, counter) = self.next_ticks(secs, nanos);
        proof {
            lemma_v1_tags(ticks, counter, node@);
        }
        Ok(Uuid::new(encode_v1(ticks, counter, &node)))
    }

    /// A time-low-first identifier with a freshly drawn node.
    pub fn gen_uuid_v1_random_node(&mut self, secs: u64, nanos: u32) -> (r: Result<
        Uuid,
        GenError,
    >)
        requires
            ticks_of_unix(secs, nanos) <= u64::MAX,
        ensures
            r is Ok ==> random_node_call(1, old(self)@, final(self)@, secs, nanos, r->Ok_0@),
            r is Ok ==> version_of(r->Ok_0@) == 1 && variant_of(r->Ok_0@) == 2,
            r is Err ==> final(self)@ == old(self)@ && r->Err_0 == GenError::EntropyUnavailable,
    {
        let node = gen_random_node_id()?;
        let (ticks, counter) = self.next_ticks(secs, nanos);
        proof {
            lemma_v1_tags(ticks, counter, node@);
            lemma_ticks_and_node(ticks, counter, node@);
        }
        Ok(Uuid::new(encode_v1(ticks, counter, &node)))
    }

    /// A time-high-first identifier with the persisted node.
    pub fn gen_uuid_v6(&mut self, secs: u64, nanos: u32) -> (r: Result<Uuid, GenError>)
        requires
            ticks_of_unix(secs, nanos) <= u64::MAX,
        ensures
            r is Ok ==> persisted_call(6, old(self)@, final(self)@, secs, nanos, r->Ok_0@),
            r is Ok ==> version_of(r->Ok_0@) == 6 && variant_of(r->Ok_0@) == 2,
            r is Err ==> old(self)@.1 is None && final(self)@ == old(self)@ && r->Err_0
                == GenError::EntropyUnavailable,
            old(self)@.1 is Some ==> r is Ok,
    {
        let node = self.persisted_node()?;
        let (ticks, counter) = self.next_ticks(secs, nanos);
        proof {
            lemma_v6_tags(ticks, counter, node@);
        }
        Ok(Uuid::new(encode_v6(ticks, counter, &node)))
    }

    /// A time-high-first identifier with a freshly drawn node.
    pub fn gen_uuid_v6_random_node(&mut self, secs: u64, nanos: u32) -> (r: Result<
        Uuid,
        GenError,
    >)
        requires
            ticks_of_unix(secs, nanos) <= u64::MAX,
        ensures
            r is Ok ==> random_node_call(6, old(self)@, final(self)@, secs, nanos, r->Ok_0@),
            r is Ok ==> version_of(r->Ok_0@) == 6 && variant_of(r->Ok_0@) == 2,
            r is Err ==> final(self)@ == old(self)@ && r->Err_0 == GenError::EntropyUnavailable,
    {
        let node = gen_random_node_id()?;
        let (ticks, counter) = self.next_ticks(secs, nanos);
        proof {
            lemma_v6_tags(ticks, counter, node@);
            lemma_ticks_and_node(ticks, counter, node@);
        }
        Ok(Uuid::new(encode_v6(ticks, counter, &node)))
    }
}

} // verus!
