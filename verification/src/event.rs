//! Actor events: wire-format validation and the emitted record.
//!
//! An event arrives as a flat serialization: a header array, the
//! concatenated UTF-8 keys, and the concatenated values. Each header carries
//! `(flags, codec, key_len, val_len)`. Validation slices both buffers in
//! header order and must exhaust them exactly; limits and the classification
//! of each failure are fixed by `spec_validate_event`.

use vstd::prelude::*;

use crate::bytes::bytes_of_range;
use crate::error::ErrorNumber;
use crate::ipld::IPLD_RAW;
use crate::utf8::{spec_utf8_valid, utf8_valid};

verus! {

/// Maximum number of entries per event.
pub const MAX_NR_ENTRIES: usize = 255;

/// Maximum key length in bytes.
pub const MAX_KEY_LEN: u32 = 31;

/// Maximum total length of the concatenated values, in bytes.
pub const MAX_TOTAL_VALUES_LEN: usize = 8192;

/// The recognized flag bits: bit 0 indexes the key, bit 1 indexes the value.
pub const FLAGS_MASK: u64 = 0x03;

/// An event entry header as handed across the syscall ABI.
#[derive(Clone, Copy, PartialEq, Eq, Structural, Debug)]
pub struct EventEntry {
    pub flags: u64,
    pub codec: u64,
    pub key_len: u32,
    pub val_len: u32,
}

/// Mathematical value of a validated entry.
pub struct EntryView {
    pub flags: u64,
    pub key: Seq<u8>,
    pub codec: u64,
    pub value: Seq<u8>,
}

/// A validated event entry: its key bytes are a well-formed UTF-8 slice of
/// the key buffer.
pub struct Entry {
    pub flags: u64,
    pub key: Vec<u8>,
    pub codec: u64,
    pub value: Vec<u8>,
}

impl View for Entry {
    type V = EntryView;

    open spec fn view(&self) -> EntryView {
        EntryView { flags: self.flags, key: self.key@, codec: self.codec, value: self.value@ }
    }
}

/// An event wrapped with the ID of the actor that emitted it.
pub struct StampedEvent {
    pub emitter: u64,
    pub entries: Vec<Entry>,
}

/// Mathematical value of a stamped event.
pub struct StampedEventView {
    pub emitter: u64,
    pub entries: Seq<EntryView>,
}

impl View for StampedEvent {
    type V = StampedEventView;

    open spec fn view(&self) -> StampedEventView {
        StampedEventView {
            emitter: self.emitter,
            entries: self.entries@.map_values(|e: Entry| e@),
        }
    }
}

/// Whether all flag bits are recognized.
pub open spec fn spec_flags_valid(flags: u64) -> bool {
    flags & !FLAGS_MASK == 0
}

/// Validates the headers from position `i` on, with `ko` and `vo` bytes of
/// the key and value buffers already consumed. Returns the validated entries
/// or the first classified failure, in header order.
pub open spec fn spec_validate_from(
    headers: Seq<EventEntry>,
    keys: Seq<u8>,
    values: Seq<u8>,
    i: int,
    ko: int,
    vo: int,
) -> Result<Seq<EntryView>, ErrorNumber>
    decreases headers.len() - i when 0 <= i <= headers.len()
{
    if i >= headers.len() {
        if ko == keys.len() && vo == values.len() {
            Ok(Seq::empty())
        } else {
            Err(ErrorNumber::IllegalArgument)
        }
    } else {
        let h = headers[i];
        if !spec_flags_valid(h.flags) {
            Err(ErrorNumber::IllegalArgument)
        } else if h.key_len > MAX_KEY_LEN {
            Err(ErrorNumber::LimitExceeded)
        } else if h.val_len > MAX_TOTAL_VALUES_LEN as u32 {
            Err(ErrorNumber::IllegalArgument)
        } else if ko + h.key_len > keys.len() {
            Err(ErrorNumber::IllegalArgument)
        } else if vo + h.val_len > values.len() {
            Err(ErrorNumber::IllegalArgument)
        } else if h.codec != IPLD_RAW {
            Err(ErrorNumber::IllegalCodec)
        } else {
            match spec_validate_from(headers, keys, values, i + 1, ko + h.key_len, vo + h.val_len) {
                Ok(rest) => Ok(
                    seq![
                        EntryView {
                            flags: h.flags,
                            key: keys.subrange(ko, ko + h.key_len),
                            codec: h.codec,
                            value: values.subrange(vo, vo + h.val_len),
                        },
                    ] + rest,
                ),
                Err(e) => Err(e),
            }
        }
    }
}

/// Validates a whole event serialization: the entry-count and total-value
/// limits, UTF-8 well-formedness of the key buffer, then every header in
/// order with exact exhaustion of both buffers.
pub open spec fn spec_validate_event(
    headers: Seq<EventEntry>,
    keys: Seq<u8>,
    values: Seq<u8>,
) -> Result<Seq<EntryView>, ErrorNumber> {
    if headers.len() > MAX_NR_ENTRIES {
        Err(ErrorNumber::LimitExceeded)
    } else if values.len() > MAX_TOTAL_VALUES_LEN {
        Err(ErrorNumber::LimitExceeded)
    } else if !spec_utf8_valid(keys) {
        Err(ErrorNumber::IllegalArgument)
    } else {
        spec_validate_from(headers, keys, values, 0, 0, 0)
    }
}

/// Validates an event serialization and materialises its entries.
pub fn validate_event(headers: &[EventEntry], keys: &[u8], values: &[u8]) -> (r: Result<
    Vec<Entry>,
    ErrorNumber,
>)
    ensures
        match r {
            Ok(entries) => spec_validate_event(headers@, keys@, values@) == Ok::<
                Seq<EntryView>,
                ErrorNumber,
            >(entries@.map_values(|e: Entry| e@)),
            Err(e) => spec_validate_event(headers@, keys@, values@) == Err::<
                Seq<EntryView>,
                ErrorNumber,
            >(e),
        },
{
    if headers.len() > MAX_NR_ENTRIES {
        return Err(ErrorNumber::LimitExceeded);
    }
    if values.len() > MAX_TOTAL_VALUES_LEN {
        return Err(ErrorNumber::LimitExceeded);
    }
    if !utf8_valid(keys) {
        return Err(ErrorNumber::IllegalArgument);
    }
    let n = headers.len();
    let mut entries: Vec<Entry> = Vec::new();
    let mut ko: usize = 0;
    let mut vo: usize = 0;
    let mut i: usize = 0;
    while i < n
        invariant
            i <= n == headers@.len(),
            ko <= keys@.len(),
            vo <= values@.len(),
            entries@.len() == i,
            headers@.len() <= MAX_NR_ENTRIES,
            values@.len() <= MAX_TOTAL_VALUES_LEN,
            spec_utf8_valid(keys@),
            spec_validate_from(headers@, keys@, values@, 0, 0, 0) == (match spec_validate_from(
                headers@,
                keys@,
                values@,
                i as int,
                ko as int,
                vo as int,
            ) {
                Ok(rest) => Ok::<Seq<EntryView>, ErrorNumber>(
                    entries@.map_values(|e: Entry| e@) + rest,
                ),
                Err(e) => Err::<Seq<EntryView>, ErrorNumber>(e),
            }),
        decreases n - i,
    {
        let h = headers[i];
        if h.flags & !FLAGS_MASK != 0 {
            return Err(ErrorNumber::IllegalArgument);
        }
        if h.key_len > MAX_KEY_LEN {
            return Err(ErrorNumber::LimitExceeded);
        }
        if h.val_len > MAX_TOTAL_VALUES_LEN as u32 {
            return Err(ErrorNumber::IllegalArgument);
        }
        if (h.key_len as usize) > keys.len() - ko {
            return Err(ErrorNumber::IllegalArgument);
        }
        if (h.val_len as usize) > values.len() - vo {
            return Err(ErrorNumber::IllegalArgument);
        }
        if h.codec != IPLD_RAW {
            return Err(ErrorNumber::IllegalCodec);
        }
        let ghost em_old = entries@.map_values(|e: Entry| e@);
        let ghost ko0 = ko as int;
        let ghost vo0 = vo as int;
        let key = bytes_of_range(keys, ko, ko + h.key_len as usize);
        let value = bytes_of_range(values, vo, vo + h.val_len as usize);
        entries.push(Entry { flags: h.flags, key, codec: h.codec, value });
        ko += h.key_len as usize;
        vo += h.val_len as usize;
        i += 1;
        proof {
            let ev = EntryView {
                flags: h.flags,
                key: keys@.subrange(ko0, ko0 + h.key_len),
                codec: h.codec,
                value: values@.subrange(vo0, vo0 + h.val_len),
            };
            let em = entries@.map_values(|e: Entry| e@);
            assert(em =~= em_old.push(ev));
            let res = spec_validate_from(headers@, keys@, values@, i as int, ko as int, vo as int);
            if res is Ok {
                let rest = res->Ok_0;
                assert(em_old + (seq![ev] + rest) =~= em + rest);
            }
        }
    }
    if ko != keys.len() || vo != values.len() {
        return Err(ErrorNumber::IllegalArgument);
    }
    proof {
        let em = entries@.map_values(|e: Entry| e@);
        assert(em + Seq::<EntryView>::empty() =~= em);
    }
    Ok(entries)
}

} // verus!
