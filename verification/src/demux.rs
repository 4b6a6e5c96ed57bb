//! The symbol demultiplexer: per-(symbol, kind) append-only byte sinks.
//!
//! Of the ten message kinds, only trade reports and quote updates are
//! persisted; every other kind is decoded and counted but not written.  A
//! persisted message's full raw record bytes, tag byte included, are
//! appended to the sink keyed by the message's symbol and kind, in capture
//! order.  The symbol key is the symbol field's raw little-endian 8-byte
//! integer, which is collision-free because it is the field itself.
//!
//! Each sink carries, as its model, the sequence of records appended to it;
//! the well-formedness invariant says the sink's bytes are exactly that
//! sequence flattened, every record of the kind's fixed size.  The
//! round-trip lemmas below turn that invariant into the guarantee a
//! consumer relies on: re-chunking a sink at the fixed record size
//! reproduces the appended records exactly.

use vstd::prelude::*;
use vstd::slice::{slice_index_get, slice_to_vec};
use std::collections::HashMap;
use crate::wire::le64_at;
use crate::iex::{IexMessage, TradingMessage};

verus! {

broadcast use vstd::std_specs::hash::group_hash_axioms;

/// The two persisted message kinds, each with its own sink per symbol.
#[derive(Clone, Copy, Debug, PartialEq, Eq, Structural)]
pub enum SinkKind {
    TradeReport,
    QuoteUpdate,
}

/// A sink's bytes are exactly its appended records flattened, each record of
/// the kind's fixed size.
pub open spec fn sink_wf(sink: Seq<u8>, records: Seq<Seq<u8>>, size: int) -> bool {
    &&& sink == records.flatten()
    &&& forall|i: int| 0 <= i < records.len() ==> (#[trigger] records[i]).len() == size
}

/// Flattening records of one fixed size concatenates them back to back:
/// the result holds `size` bytes per record, and the `i`-th chunk of `size`
/// bytes is exactly the `i`-th record.
pub proof fn lemma_uniform_flatten(records: Seq<Seq<u8>>, size: int)
    requires
        size >= 0,
        forall|i: int| 0 <= i < records.len() ==> (#[trigger] records[i]).len() == size,
    ensures
        records.flatten().len() == size * records.len(),
        forall|i: int|
            0 <= i < records.len() ==> records.flatten().subrange(i * size, i * size + size)
                == records[i],
    decreases records.len(),
{
    let n: int = records.len() as int;
    if n == 0 {
    } else {
        let rest = records.drop_first();
        lemma_uniform_flatten(rest, size);
        assert(records.flatten() == records.first().add(rest.flatten()));
        assert(records[0].len() == size);
        assert(size * n == size + size * (n - 1)) by (nonlinear_arith);
        assert forall|i: int| 0 <= i < n implies records.flatten().subrange(
            i * size,
            i * size + size,
        ) == records[i] by {
            if i == 0 {
                assert(records.flatten().subrange(0, size) =~= records.first());
            } else {
                assert((i - 1) * size == i * size - size) by (nonlinear_arith);
                assert(i * size >= size && i * size + size <= size * n) by (nonlinear_arith)
                    requires
                        1 <= i < n && size >= 0,
                ;
                assert(rest.flatten().subrange((i - 1) * size, (i - 1) * size + size) == rest[i
                    - 1]);
                assert(records.flatten().subrange(i * size, i * size + size) =~= rest
                    .flatten().subrange(i * size - size, i * size));
            }
        }
    }
}

/// Append `src` to `dst`.
fn append_bytes(dst: &mut Vec<u8>, src: &[u8])
    ensures
        final(dst)@ == old(dst)@ + src@,
{
    let n: usize = src.len();
    let mut i: usize = 0;
    while i < n
        invariant
            0 <= i <= n,
            n == src@.len(),
            dst@ == old(dst)@ + src@.subrange(0, i as int),
        decreases n - i,
    {
        dst.push(*slice_index_get(src, i));
        proof {
            assert(old(dst)@ + src@.subrange(0, i as int) + seq![src@[i as int]] =~= old(dst)@
                + src@.subrange(0, i + 1));
        }
        i = i + 1;
    }
    proof {
        assert(src@.subrange(0, n as int) =~= src@);
    }
}

/// The per-symbol output sinks of one run: for each symbol seen in a
/// persisted message, the concatenated raw records of that symbol and kind,
/// in capture order.  The map grows with the number of distinct symbols and
/// is never pruned during a run.
pub struct Demux {
    trades: HashMap<u64, Vec<u8>>,
    quotes: HashMap<u64, Vec<u8>>,
    trade_history: Ghost<Map<u64, Seq<Seq<u8>>>>,
    quote_history: Ghost<Map<u64, Seq<Seq<u8>>>>,
}

impl Demux {
    /// Whether a trade-report sink exists for symbol key `k`.
    pub closed spec fn spec_trade_contains(self, k: u64) -> bool {
        self.trades@.contains_key(k)
    }

    /// The bytes of the trade-report sink for symbol key `k`.
    pub closed spec fn spec_trade_sink(self, k: u64) -> Seq<u8> {
        self.trades@[k]@
    }

    /// The records appended, in order, to the trade-report sink for `k`.
    pub closed spec fn spec_trade_records(self, k: u64) -> Seq<Seq<u8>> {
        self.trade_history@[k]
    }

    /// Whether a quote-update sink exists for symbol key `k`.
    pub closed spec fn spec_quote_contains(self, k: u64) -> bool {
        self.quotes@.contains_key(k)
    }

    /// The bytes of the quote-update sink for symbol key `k`.
    pub closed spec fn spec_quote_sink(self, k: u64) -> Seq<u8> {
        self.quotes@[k]@
    }

    /// The records appended, in order, to the quote-update sink for `k`.
    pub closed spec fn spec_quote_records(self, k: u64) -> Seq<Seq<u8>> {
        self.quote_history@[k]
    }

    pub open spec fn wf(self) -> bool {
        &&& forall|k: u64|
            #[trigger] self.spec_trade_contains(k) ==> sink_wf(
                self.spec_trade_sink(k),
                self.spec_trade_records(k),
                38,
            )
        &&& forall|k: u64|
            #[trigger] self.spec_quote_contains(k) ==> sink_wf(
                self.spec_quote_sink(k),
                self.spec_quote_records(k),
                42,
            )
    }

    /// A demultiplexer with no sinks.
    pub fn new() -> (r: Demux)
        ensures
            r.wf(),
            forall|k: u64| !r.spec_trade_contains(k) && !r.spec_quote_contains(k),
    {
        Demux {
            trades: HashMap::new(),
            quotes: HashMap::new(),
            trade_history: Ghost(Map::empty()),
            quote_history: Ghost(Map::empty()),
        }
    }

    /// The trade-report sink for symbol key `key`, if one exists.
    pub fn trade_sink(&self, key: u64) -> (r: Option<&Vec<u8>>)
        ensures
            self.spec_trade_contains(key) ==> (r matches Some(v) && v@ == self.spec_trade_sink(
                key,
            )),
            !self.spec_trade_contains(key) ==> r is None,
    {
        self.trades.get(&key)
    }

    /// The quote-update sink for symbol key `key`, if one exists.
    pub fn quote_sink(&self, key: u64) -> (r: Option<&Vec<u8>>)
        ensures
            self.spec_quote_contains(key) ==> (r matches Some(v) && v@ == self.spec_quote_sink(
                key,
            )),
            !self.spec_quote_contains(key) ==> r is None,
    {
        self.quotes.get(&key)
    }

    /// Route one decoded message: append a trade report's or quote update's
    /// raw record bytes to the sink of its symbol and kind, in arrival
    /// order; leave every other sink, and every other message kind,
    /// untouched.  Returns whether the message was persisted.
    pub fn record(&mut self, m: &IexMessage) -> (persisted: bool)
        requires
            old(self).wf(),
            m.wf(),
        ensures
            final(self).wf(),
            match m {
                IexMessage::TradingMessage(TradingMessage::TradeReportMessage(t)) => {
                    let k = le64_at(t@, 10);
                    &&& persisted
                    &&& final(self).spec_trade_contains(k)
                    &&& final(self).spec_trade_sink(k) == (if old(self).spec_trade_contains(k) {
                        old(self).spec_trade_sink(k)
                    } else {
                        Seq::<u8>::empty()
                    }) + t@
                    &&& final(self).spec_trade_records(k) == (if old(
                        self,
                    ).spec_trade_contains(k) {
                        old(self).spec_trade_records(k)
                    } else {
                        Seq::<Seq<u8>>::empty()
                    }).push(t@)
                    &&& trades_same_except(*old(self), *final(self), k)
                    &&& quotes_same(*old(self), *final(self))
                },
                IexMessage::TradingMessage(TradingMessage::QuoteUpdateMessage(q)) => {
                    let k = le64_at(q@, 10);
                    &&& persisted
                    &&& final(self).spec_quote_contains(k)
                    &&& final(self).spec_quote_sink(k) == (if old(self).spec_quote_contains(k) {
                        old(self).spec_quote_sink(k)
                    } else {
                        Seq::<u8>::empty()
                    }) + q@
                    &&& final(self).spec_quote_records(k) == (if old(
                        self,
                    ).spec_quote_contains(k) {
                        old(self).spec_quote_records(k)
                    } else {
                        Seq::<Seq<u8>>::empty()
                    }).push(q@)
                    &&& quotes_same_except(*old(self), *final(self), k)
                    &&& trades_same(*old(self), *final(self))
                },
                _ => !persisted && trades_same(*old(self), *final(self)) && quotes_same(
                    *old(self),
                    *final(self),
                ),
            },
    {
        match m {
            IexMessage::TradingMessage(TradingMessage::TradeReportMessage(t)) => {
                let ghost pre = *self;
                let key = t.symbol_key();
                let mut sink: Vec<u8>;
                let ghost mut prior: Seq<Seq<u8>> = Seq::empty();
                match self.trades.remove(&key) {
                    Some(v) => {
                        sink = v;
                        proof {
                            prior = pre.trade_history@[key];
                        }
                    },
                    None => {
                        sink = Vec::new();
                    },
                }
                proof {
                    if pre.spec_trade_contains(key) {
                        assert(sink_wf(pre.spec_trade_sink(key), prior, 38));
                    } else {
                        assert(prior.flatten() == Seq::<u8>::empty());
                        assert(sink@ =~= prior.flatten());
                    }
                }
                append_bytes(&mut sink, t.as_bytes());
                let ghost sink_view = sink@;
                self.trades.insert(key, sink);
                proof {
                    self.trade_history@ = pre.trade_history@.insert(key, prior.push(t@));
                    prior.lemma_flatten_push(t@);
                    assert(sink_view == prior.flatten() + t@);
                    assert forall|k: u64| #[trigger] self.spec_trade_contains(k) implies sink_wf(
                        self.spec_trade_sink(k),
                        self.spec_trade_records(k),
                        38,
                    ) by {
                        if k == key {
                            assert(self.spec_trade_sink(k) == sink_view);
                            assert(self.spec_trade_records(k) == prior.push(t@));
                            assert(self.spec_trade_records(k).flatten() == prior.push(
                                t@,
                            ).flatten());
                            assert forall|i: int|
                                0 <= i < self.spec_trade_records(k).len() implies (
                            #[trigger] self.spec_trade_records(k)[i]).len() == 38 by {
                                assert(self.spec_trade_records(k)[i] == prior.push(t@)[i]);
                                if i < prior.len() {
                                    assert(prior[i].len() == 38);
                                } else {
                                    assert(prior.push(t@)[i] == t@);
                                }
                            }
                        } else {
                            assert(pre.spec_trade_contains(k));
                            assert(self.spec_trade_sink(k) == pre.spec_trade_sink(k));
                            assert(self.spec_trade_records(k) == pre.spec_trade_records(k));
                        }
                    }
                    assert forall|k: u64| #[trigger] self.spec_quote_contains(k) implies sink_wf(
                        self.spec_quote_sink(k),
                        self.spec_quote_records(k),
                        42,
                    ) by {
                        assert(pre.spec_quote_contains(k));
                        assert(self.spec_quote_sink(k) == pre.spec_quote_sink(k));
                        assert(self.spec_quote_records(k) == pre.spec_quote_records(k));
                    }
                }
                true
            },
            IexMessage::TradingMessage(TradingMessage::QuoteUpdateMessage(q)) => {
                let ghost pre = *self;
                let key = q.symbol_key();
                let mut sink: Vec<u8>;
                let ghost mut prior: Seq<Seq<u8>> = Seq::empty();
                match self.quotes.remove(&key) {
                    Some(v) => {
                        sink = v;
                        proof {
                            prior = pre.quote_history@[key];
                        }
                    },
                    None => {
                        sink = Vec::new();
                    },
                }
                proof {
                    if pre.spec_quote_contains(key) {
                        assert(sink_wf(pre.spec_quote_sink(key), prior, 42));
                    } else {
                        assert(prior.flatten() == Seq::<u8>::empty());
                        assert(sink@ =~= prior.flatten());
                    }
                }
                append_bytes(&mut sink, q.as_bytes());
                let ghost sink_view = sink@;
                self.quotes.insert(key, sink);
                proof {
                    self.quote_history@ = pre.quote_history@.insert(key, prior.push(q@));
                    prior.lemma_flatten_push(q@);
                    assert(sink_view == prior.flatten() + q@);
                    assert forall|k: u64| #[trigger] self.spec_quote_contains(k) implies sink_wf(
                        self.spec_quote_sink(k),
                        self.spec_quote_records(k),
                        42,
                    ) by {
                        if k == key {
                            assert(self.spec_quote_sink(k) == sink_view);
                            assert(self.spec_quote_records(k) == prior.push(q@));
                            assert(self.spec_quote_records(k).flatten() == prior.push(
                                q@,
                            ).flatten());
                            assert forall|i: int|
                                0 <= i < self.spec_quote_records(k).len() implies (
                            #[trigger] self.spec_quote_records(k)[i]).len() == 42 by {
                                assert(self.spec_quote_records(k)[i] == prior.push(q@)[i]);
                                if i < prior.len() {
                                    assert(prior[i].len() == 42);
                                } else {
                                    assert(prior.push(q@)[i] == q@);
                                }
                            }
                        } else {
                            assert(pre.spec_quote_contains(k));
                            assert(self.spec_quote_sink(k) == pre.spec_quote_sink(k));
                            assert(self.spec_quote_records(k) == pre.spec_quote_records(k));
                        }
                    }
                    assert forall|k: u64| #[trigger] self.spec_trade_contains(k) implies sink_wf(
                        self.spec_trade_sink(k),
                        self.spec_trade_records(k),
                        38,
                    ) by {
                        assert(pre.spec_trade_contains(k));
                        assert(self.spec_trade_sink(k) == pre.spec_trade_sink(k));
                        assert(self.spec_trade_records(k) == pre.spec_trade_records(k));
                    }
                }
                true
            },
            _ => false,
        }
    }

    /// Round-trip law for trade-report sinks: a sink holds 38 bytes per
    /// appended record, and re-chunking it at 38 bytes reproduces the
    /// appended records exactly, in order — no byte is lost or reordered.
    pub proof fn lemma_trade_sink_round_trip(self, key: u64)
        requires
            self.wf(),
            self.spec_trade_contains(key),
        ensures
            self.spec_trade_sink(key).len() == 38 * self.spec_trade_records(key).len(),
            forall|i: int|
                0 <= i < self.spec_trade_records(key).len() ==> self.spec_trade_sink(
                    key,
                ).subrange(i * 38, i * 38 + 38) == self.spec_trade_records(key)[i],
    {
        lemma_uniform_flatten(self.spec_trade_records(key), 38);
    }

    /// Round-trip law for quote-update sinks: a sink holds 42 bytes per
    /// appended record, and re-chunking it at 42 bytes reproduces the
    /// appended records exactly, in order — no byte is lost or reordered.
    pub proof fn lemma_quote_sink_round_trip(self, key: u64)
        requires
            self.wf(),
            self.spec_quote_contains(key),
        ensures
            self.spec_quote_sink(key).len() == 42 * self.spec_quote_records(key).len(),
            forall|i: int|
                0 <= i < self.spec_quote_records(key).len() ==> self.spec_quote_sink(
                    key,
                ).subrange(i * 42, i * 42 + 42) == self.spec_quote_records(key)[i],
    {
        lemma_uniform_flatten(self.spec_quote_records(key), 42);
    }
}

/// The trade-report sinks of `pre` and `post` agree on every key but `k`.
pub open spec fn trades_same_except(pre: Demux, post: Demux, k: u64) -> bool {
    forall|k2: u64|
        k2 != k ==> {
            &&& (#[trigger] post.spec_trade_contains(k2)) == pre.spec_trade_contains(k2)
            &&& post.spec_trade_sink(k2) == pre.spec_trade_sink(k2)
            &&& post.spec_trade_records(k2) == pre.spec_trade_records(k2)
        }
}

/// The trade-report sinks of `pre` and `post` agree on every key.
pub open spec fn trades_same(pre: Demux, post: Demux) -> bool {
    forall|k2: u64|
        {
            &&& (#[trigger] post.spec_trade_contains(k2)) == pre.spec_trade_contains(k2)
            &&& post.spec_trade_sink(k2) == pre.spec_trade_sink(k2)
            &&& post.spec_trade_records(k2) == pre.spec_trade_records(k2)
        }
}

/// The quote-update sinks of `pre` and `post` agree on every key but `k`.
pub open spec fn quotes_same_except(pre: Demux, post: Demux, k: u64) -> bool {
    forall|k2: u64|
        k2 != k ==> {
            &&& (#[trigger] post.spec_quote_contains(k2)) == pre.spec_quote_contains(k2)
            &&& post.spec_quote_sink(k2) == pre.spec_quote_sink(k2)
            &&& post.spec_quote_records(k2) == pre.spec_quote_records(k2)
        }
}

/// The quote-update sinks of `pre` and `post` agree on every key.
pub open spec fn quotes_same(pre: Demux, post: Demux) -> bool {
    forall|k2: u64|
        {
            &&& (#[trigger] post.spec_quote_contains(k2)) == pre.spec_quote_contains(k2)
            &&& post.spec_quote_sink(k2) == pre.spec_quote_sink(k2)
            &&& post.spec_quote_records(k2) == pre.spec_quote_records(k2)
        }
}

/// Which sink, if any, one decoded message is persisted to: the sink kind,
/// the symbol key, and the full raw record bytes to append.  Exactly the
/// trade-report and quote-update kinds are persisted.
pub fn persist_target(m: &IexMessage) -> (r: Option<(SinkKind, u64, Vec<u8>)>)
    requires
        m.wf(),
    ensures
        match m {
            IexMessage::TradingMessage(TradingMessage::TradeReportMessage(t)) => (r matches Some(
                p,
            ) && p.0 == SinkKind::TradeReport && p.1 == le64_at(t@, 10) && p.2@ == t@),
            IexMessage::TradingMessage(TradingMessage::QuoteUpdateMessage(q)) => (r matches Some(
                p,
            ) && p.0 == SinkKind::QuoteUpdate && p.1 == le64_at(q@, 10) && p.2@ == q@),
            _ => r is None,
        },
{
    match m {
        IexMessage::TradingMessage(TradingMessage::TradeReportMessage(t)) => Some(
            (SinkKind::TradeReport, t.symbol_key(), slice_to_vec(t.as_bytes())),
        ),
        IexMessage::TradingMessage(TradingMessage::QuoteUpdateMessage(q)) => Some(
            (SinkKind::QuoteUpdate, q.symbol_key(), slice_to_vec(q.as_bytes())),
        ),
        _ => None,
    }
}

} // verus!
