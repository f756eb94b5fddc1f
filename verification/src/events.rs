//! The chain-native event log: its binary decoding and its correlation with
//! a block's transactions.
//!
//! A log is a count-prefixed list of event records. Each record carries the
//! phase it was emitted in (during the application of the extrinsic at a
//! given index, or outside any extrinsic) and the event itself. The gateway
//! reads the built-in success and failure markers exactly; any other event
//! body is runtime-specific and is rejected as unparseable rather than
//! guessed at. Folding a record list yields, per extrinsic index, the latest
//! success flag and the descriptions of the other events seen, in encounter
//! order.

use std::collections::HashMap;

use vstd::prelude::*;

use crate::errors::Error;

verus! {

broadcast use vstd::std_specs::hash::group_hash_axioms;

/// The phase an event was emitted in.
#[derive(Clone, Copy, Debug)]
pub enum EventPhase {
    /// Emitted while applying the extrinsic at this index.
    ApplyExtrinsic(u32),
    /// Emitted outside any extrinsic (block finalization work).
    Finalization,
}

/// One event, as far as the gateway reads it.
#[derive(Debug)]
pub enum EventKind {
    /// The built-in marker: the enclosing extrinsic was applied successfully.
    ExtrinsicSuccess,
    /// The built-in marker: the enclosing extrinsic failed.
    ExtrinsicFailed,
    /// Any other event, carried as a display description.
    Other(String),
}

/// One record of the event log.
#[derive(Debug)]
pub struct EventRecord {
    /// The phase the event was emitted in.
    pub phase: EventPhase,
    /// The event itself.
    pub event: EventKind,
}

/// A 32-bit little-endian read of the first four bytes.
pub open spec fn le4(s: Seq<u8>) -> u32
    recommends
        s.len() >= 4,
{
    (s[0] + s[1] * 0x100 + s[2] * 0x10000 + s[3] * 0x1000000) as u32
}

/// Parses a compact-form unsigned count: the low two bits of the first byte
/// select a one-, two- or four-byte form, and the remaining bits hold the
/// value. The big-integer form never appears in an event count and is
/// rejected. Yields the value and the bytes consumed.
pub open spec fn spec_parse_compact_u32(s: Seq<u8>) -> Option<(u32, int)> {
    if s.len() == 0 {
        None
    } else {
        let mode = s[0] % 4;
        if mode == 0 {
            Some(((s[0] / 4) as u32, 1))
        } else if mode == 1 {
            if s.len() >= 2 {
                Some((((s[0] + s[1] * 0x100) / 4) as u32, 2))
            } else {
                None
            }
        } else if mode == 2 {
            if s.len() >= 4 {
                Some(((le4(s) / 4) as u32, 4))
            } else {
                None
            }
        } else {
            None
        }
    }
}

/// Parses one event body: a module index byte, then the event within the
/// module. Only the system module's two markers have a fixed, runtime-free
/// layout; anything else fails.
pub open spec fn spec_parse_event(s: Seq<u8>) -> Option<(EventKind, int)> {
    if s.len() >= 2 && s[0] == 0 && s[1] == 0 {
        Some((EventKind::ExtrinsicSuccess, 2))
    } else if s.len() >= 2 && s[0] == 0 && s[1] == 1 {
        Some((EventKind::ExtrinsicFailed, 2))
    } else {
        None
    }
}

/// Parses one record: a phase tag (an extrinsic index after tag zero, or the
/// finalization phase after tag one), then the event body.
pub open spec fn spec_parse_record(s: Seq<u8>) -> Option<(EventRecord, int)> {
    if s.len() == 0 {
        None
    } else if s[0] == 0 {
        if s.len() >= 5 {
            match spec_parse_event(s.skip(5)) {
                Some((k, n)) => Some(
                    (
                        EventRecord {
                            phase: EventPhase::ApplyExtrinsic(le4(s.skip(1))),
                            event: k,
                        },
                        5 + n,
                    ),
                ),
                None => None,
            }
        } else {
            None
        }
    } else if s[0] == 1 {
        match spec_parse_event(s.skip(1)) {
            Some((k, n)) => Some(
                (EventRecord { phase: EventPhase::Finalization, event: k }, 1 + n),
            ),
            None => None,
        }
    } else {
        None
    }
}

/// Parses `n` consecutive records; yields them and the bytes consumed.
pub open spec fn spec_parse_records(s: Seq<u8>, n: nat) -> Option<(Seq<EventRecord>, int)>
    decreases n,
{
    if n == 0 {
        Some((Seq::empty(), 0))
    } else {
        match spec_parse_record(s) {
            None => None,
            Some((r, k)) => match spec_parse_records(s.skip(k), (n - 1) as nat) {
                None => None,
                Some((rs, k2)) => Some((seq![r] + rs, k + k2)),
            },
        }
    }
}

/// Parses a whole event log: a compact record count, then that many records.
/// Trailing bytes are ignored, as the chain's own decoder ignores them.
pub open spec fn spec_parse_event_log(s: Seq<u8>) -> Option<Seq<EventRecord>> {
    match spec_parse_compact_u32(s) {
        None => None,
        Some((n, k)) => match spec_parse_records(s.skip(k), n as nat) {
            None => None,
            Some((rs, _)) => Some(rs),
        },
    }
}

/// Reads a compact count at `pos`. Fails exactly where the specification
/// parser fails on the remaining bytes.
pub(crate) fn parse_compact_u32(bytes: &[u8], pos: usize) -> (r: Result<(u32, usize), Error>)
    requires
        pos <= bytes@.len(),
    ensures
        r matches Ok((v, np)) ==> spec_parse_compact_u32(bytes@.skip(pos as int)) == Some(
            (v, np - pos as int),
        ) && pos < np <= bytes@.len(),
        r matches Err(e) ==> e == Error::ParseError && spec_parse_compact_u32(
            bytes@.skip(pos as int),
        ) is None,
{
    let ghost s = bytes@.skip(pos as int);
    let n = bytes.len();
    if pos >= n {
        return Err(Error::ParseError);
    }
    let b0 = bytes[pos];
    assert(s[0] == bytes@[pos as int]);
    let mode = b0 % 4;
    if mode == 0 {
        Ok(((b0 / 4) as u32, pos + 1))
    } else if mode == 1 {
        if n - pos >= 2 {
            let b1 = bytes[pos + 1];
            assert(s[1] == bytes@[pos + 1]);
            Ok((((b0 as u32) + (b1 as u32) * 0x100) / 4, pos + 2))
        } else {
            Err(Error::ParseError)
        }
    } else if mode == 2 {
        if n - pos >= 4 {
            let b1 = bytes[pos + 1];
            let b2 = bytes[pos + 2];
            let b3 = bytes[pos + 3];
            assert(s[1] == bytes@[pos + 1] && s[2] == bytes@[pos + 2] && s[3] == bytes@[pos + 3]);
            let v: u32 = (b0 as u32) + (b1 as u32) * 0x100 + (b2 as u32) * 0x10000 + (b3 as u32)
                * 0x1000000;
            Ok((v / 4, pos + 4))
        } else {
            Err(Error::ParseError)
        }
    } else {
        Err(Error::ParseError)
    }
}

/// Reads a 32-bit little-endian extrinsic index at `pos`.
fn read_le4(bytes: &[u8], pos: usize) -> (r: u32)
    requires
        pos + 4 <= bytes@.len(),
    ensures
        r == le4(bytes@.skip(pos as int)),
{
    let ghost s = bytes@.skip(pos as int);
    let b0 = bytes[pos];
    let b1 = bytes[pos + 1];
    let b2 = bytes[pos + 2];
    let b3 = bytes[pos + 3];
    assert(s[0] == bytes@[pos as int] && s[1] == bytes@[pos + 1] && s[2] == bytes@[pos + 2] && s[3]
        == bytes@[pos + 3]);
    (b0 as u32) + (b1 as u32) * 0x100 + (b2 as u32) * 0x10000 + (b3 as u32) * 0x1000000
}

/// Reads one event record at `pos`. Fails exactly where the specification
/// parser fails on the remaining bytes.
fn parse_record(bytes: &[u8], pos: usize) -> (r: Result<(EventRecord, usize), Error>)
    requires
        pos <= bytes@.len(),
    ensures
        r matches Ok((rec, np)) ==> spec_parse_record(bytes@.skip(pos as int)) == Some(
            (rec, np - pos as int),
        ) && pos < np <= bytes@.len(),
        r matches Err(e) ==> e == Error::ParseError && spec_parse_record(
            bytes@.skip(pos as int),
        ) is None,
{
    let ghost s = bytes@.skip(pos as int);
    let n = bytes.len();
    if pos >= n {
        return Err(Error::ParseError);
    }
    let tag = bytes[pos];
    assert(s[0] == bytes@[pos as int]);
    if tag == 0 {
        if n - pos >= 5 {
            let idx = read_le4(bytes, pos + 1);
            assert(bytes@.skip(pos + 1) =~= s.skip(1));
            match parse_event(bytes, pos + 5) {
                Ok((kind, np)) => {
                    assert(bytes@.skip(pos + 5) =~= s.skip(5));
                    Ok((EventRecord { phase: EventPhase::ApplyExtrinsic(idx), event: kind }, np))
                },
                Err(e) => {
                    assert(bytes@.skip(pos + 5) =~= s.skip(5));
                    Err(e)
                },
            }
        } else {
            Err(Error::ParseError)
        }
    } else if tag == 1 {
        match parse_event(bytes, pos + 1) {
            Ok((kind, np)) => {
                assert(bytes@.skip(pos + 1) =~= s.skip(1));
                Ok((EventRecord { phase: EventPhase::Finalization, event: kind }, np))
            },
            Err(e) => {
                assert(bytes@.skip(pos + 1) =~= s.skip(1));
                Err(e)
            },
        }
    } else {
        Err(Error::ParseError)
    }
}

/// Reads one event body at `pos`. Fails exactly where the specification
/// parser fails on the remaining bytes.
fn parse_event(bytes: &[u8], pos: usize) -> (r: Result<(EventKind, usize), Error>)
    requires
        pos <= bytes@.len(),
    ensures
        r matches Ok((k, np)) ==> spec_parse_event(bytes@.skip(pos as int)) == Some(
            (k, np - pos as int),
        ) && pos < np <= bytes@.len(),
        r matches Err(e) ==> e == Error::ParseError && spec_parse_event(
            bytes@.skip(pos as int),
        ) is None,
{
    let ghost s = bytes@.skip(pos as int);
    let n = bytes.len();
    if n - pos < 2 || pos >= n {
        return Err(Error::ParseError);
    }
    let module = bytes[pos];
    let event = bytes[pos + 1];
    assert(s[0] == bytes@[pos as int] && s[1] == bytes@[pos + 1]);
    if module == 0 && event == 0 {
        Ok((EventKind::ExtrinsicSuccess, pos + 2))
    } else if module == 0 && event == 1 {
        Ok((EventKind::ExtrinsicFailed, pos + 2))
    } else {
        Err(Error::ParseError)
    }
}

/// Decodes a whole event log into its records. Fails with
/// [`Error::ParseError`] exactly where the specification parser fails.
pub fn parse_event_records(bytes: &[u8]) -> (r: Result<Vec<EventRecord>, Error>)
    ensures
        r matches Ok(v) ==> spec_parse_event_log(bytes@) == Some(v@),
        r matches Err(e) ==> e == Error::ParseError && spec_parse_event_log(bytes@) is None,
{
    let (count, start) = match parse_compact_u32(bytes, 0) {
        Ok(p) => p,
        Err(e) => {
            proof {
                assert(bytes@.skip(0) =~= bytes@);
            }
            return Err(e);
        },
    };
    let mut acc: Vec<EventRecord> = Vec::new();
    let mut pos: usize = start;
    let mut j: u32 = 0;
    proof {
        assert(bytes@.skip(0) =~= bytes@);
        match spec_parse_records(bytes@.skip(start as int), count as nat) {
            Some((rs, c)) => {
                assert(Seq::<EventRecord>::empty() + rs =~= rs);
            },
            None => {},
        }
    }
    while j < count
        invariant
            pos <= bytes@.len(),
            0 <= j <= count,
            spec_parse_event_log(bytes@) == (match spec_parse_records(
                bytes@.skip(pos as int),
                (count - j) as nat,
            ) {
                None => None::<Seq<EventRecord>>,
                Some((rs, c)) => Some(acc@ + rs),
            }),
        decreases count - j,
    {
        let ghost cur = bytes@.skip(pos as int);
        let ghost acc0 = acc@;
        match parse_record(bytes, pos) {
            Ok((rec, np)) => {
                acc.push(rec);
                proof {
                    let k = np - pos as int;
                    assert(bytes@.skip(np as int) =~= cur.skip(k));
                    match spec_parse_records(cur.skip(k), (count - j - 1) as nat) {
                        Some((rs2, c2)) => {
                            assert(spec_parse_records(cur, (count - j) as nat) == Some(
                                (seq![rec] + rs2, k + c2),
                            ));
                            assert(acc0 + (seq![rec] + rs2) =~= acc@ + rs2);
                        },
                        None => {
                            assert(spec_parse_records(cur, (count - j) as nat) is None);
                        },
                    }
                }
                pos = np;
                j = j + 1;
            },
            Err(e) => {
                return Err(e);
            },
        }
    }
    proof {
        assert(spec_parse_records(bytes@.skip(pos as int), 0) == Some(
            (Seq::<EventRecord>::empty(), 0int),
        ));
        assert(acc@ + Seq::<EventRecord>::empty() =~= acc@);
    }
    Ok(acc)
}

/// The per-extrinsic outcome map after one more record: a success or failure
/// marker sets the flag at its index, any other applied event appends its
/// description there, and an index starts at `(false, [])` when first seen.
pub open spec fn outcome_after(
    m: Map<u32, (bool, Seq<Seq<char>>)>,
    r: EventRecord,
) -> Map<u32, (bool, Seq<Seq<char>>)> {
    match r.phase {
        EventPhase::ApplyExtrinsic(idx) => {
            let prior = if m.contains_key(idx) {
                m[idx]
            } else {
                (false, Seq::empty())
            };
            match r.event {
                EventKind::ExtrinsicSuccess => m.insert(idx, (true, prior.1)),
                EventKind::ExtrinsicFailed => m.insert(idx, (false, prior.1)),
                EventKind::Other(s) => m.insert(idx, (prior.0, prior.1.push(s@))),
            }
        },
        EventPhase::Finalization => m,
    }
}

/// The outcome map of a whole record list, folded in order.
pub open spec fn spec_fold_events(rs: Seq<EventRecord>) -> Map<u32, (bool, Seq<Seq<char>>)>
    decreases rs.len(),
{
    if rs.len() == 0 {
        Map::empty()
    } else {
        outcome_after(spec_fold_events(rs.drop_last()), rs.last())
    }
}

/// The executable outcome map agrees with its model: same indices, same
/// flags, and the description lists equal as character sequences.
pub open spec fn outcome_map_matches(
    m: Map<u32, (bool, Vec<String>)>,
    s: Map<u32, (bool, Seq<Seq<char>>)>,
) -> bool {
    m.dom() == s.dom() && (forall|k: u32|
        #[trigger] m.contains_key(k) ==> m[k].0 == s[k].0 && m[k].1.deep_view() == s[k].1)
}

/// Folds a record list into the outcome map, keyed by extrinsic index.
pub fn fold_event_records(records: &Vec<EventRecord>) -> (r: HashMap<u32, (bool, Vec<String>)>)
    ensures
        outcome_map_matches(r@, spec_fold_events(records@)),
{
    let mut map: HashMap<u32, (bool, Vec<String>)> = HashMap::new();
    let n = records.len();
    let mut i: usize = 0;
    proof {
        assert(records@.take(0) =~= Seq::<EventRecord>::empty());
    }
    while i < n
        invariant
            n == records@.len(),
            0 <= i <= n,
            outcome_map_matches(map@, spec_fold_events(records@.take(i as int))),
        decreases n - i,
    {
        let ghost pre = spec_fold_events(records@.take(i as int));
        proof {
            assert(records@.take(i + 1).drop_last() =~= records@.take(i as int));
            assert(records@.take(i + 1).last() == records@[i as int]);
        }
        let rec = &records[i];
        match &rec.phase {
            EventPhase::ApplyExtrinsic(idx) => {
                let idx: u32 = *idx;
                let ghost m0 = map@;
                let ghost priorm: (bool, Seq<Seq<char>>) = if pre.contains_key(idx) {
                    pre[idx]
                } else {
                    (false, Seq::empty())
                };
                let prior = map.remove(&idx);
                let (flag, list) = match prior {
                    Some(p) => p,
                    None => (false, Vec::new()),
                };
                proof {
                    assert(map@ == m0.remove(idx));
                    if prior is Some {
                        assert(m0.contains_key(idx) && m0[idx] == prior->0);
                        assert(flag == priorm.0 && list.deep_view() == priorm.1);
                    } else {
                        assert(!m0.contains_key(idx));
                        assert(!pre.contains_key(idx));
                        assert(list.deep_view() =~= Seq::<Seq<char>>::empty());
                    }
                }
                let next = match &rec.event {
                    EventKind::ExtrinsicSuccess => (true, list),
                    EventKind::ExtrinsicFailed => (false, list),
                    EventKind::Other(s) => {
                        let mut list = list;
                        let ghost dv0 = list.deep_view();
                        list.push(s.clone());
                        proof {
                            assert(list.deep_view() =~= dv0.push(s@));
                        }
                        (flag, list)
                    },
                };
                proof {
                    assert(next.0 == outcome_after(pre, records@[i as int])[idx].0 && next.1.deep_view()
                        == outcome_after(pre, records@[i as int])[idx].1);
                }
                map.insert(idx, next);
                proof {
                    let post = outcome_after(pre, records@[i as int]);
                    assert(map@ == m0.remove(idx).insert(idx, next));
                    assert(map@.dom() =~= post.dom());
                    assert forall|k: u32| #[trigger] map@.contains_key(k) implies map@[k].0
                        == post[k].0 && map@[k].1.deep_view() == post[k].1 by {
                        if k != idx {
                            assert(m0.contains_key(k));
                        }
                    }
                }
            },
            EventPhase::Finalization => {
            },
        }
        i = i + 1;
    }
    proof {
        assert(records@.take(n as int) =~= records@);
    }
    map
}

/// Decodes a chain event log into the outcome map. An absent log is an empty
/// map, not an error; malformed bytes fail with [`Error::ParseError`].
pub fn decode_event_log(events: Option<&Vec<u8>>) -> (r: Result<
    HashMap<u32, (bool, Vec<String>)>,
    Error,
>)
    ensures
        events is None ==> (r matches Ok(m) && m@ == Map::<u32, (bool, Vec<String>)>::empty()),
        events matches Some(b) ==> match spec_parse_event_log(b@) {
            Some(rs) => r matches Ok(m) && outcome_map_matches(m@, spec_fold_events(rs)),
            None => r matches Err(e) && e == Error::ParseError,
        },
{
    match events {
        None => Ok(HashMap::new()),
        Some(b) => {
            let records = parse_event_records(b.as_slice())?;
            Ok(fold_event_records(&records))
        },
    }
}

} // verus!
