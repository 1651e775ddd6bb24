//! How deeply the brackets and braces of a text nest.
//!
//! The text is read byte by byte in its UTF-8 form. A double quote opens a string and
//! the next double quote that no backslash escapes closes it; what stands inside a
//! string does not count. Outside strings `[` and `{` go one level down and `]` and
//! `}` one level up. Whether a closer fits its opener is not looked at, and a closer
//! with nothing open is passed over. For a text that is well-formed JSON this is how
//! deeply its arrays and objects nest.

use vstd::prelude::*;
use vstd::utf8::encode_utf8;

verus! {

/// The deepest nesting an event may have to be decoded. Events as servers send them
/// are a handful of levels deep.
pub const MAX_NESTING: usize = 32;

/// Where the reading of a text stands.
pub struct Scan {
    /// How many brackets and braces are open.
    pub depth: nat,
    /// The most that were open at once.
    pub deepest: nat,
    /// Whether a string is open.
    pub quoted: bool,
    /// Whether the last byte was a backslash that escapes the next one.
    pub escaped: bool,
}

/// Where the reading stands before the first byte.
pub open spec fn scan_start() -> Scan {
    Scan { depth: 0, deepest: 0, quoted: false, escaped: false }
}

/// Where the reading stands one byte after `before`.
pub open spec fn scan_step(before: Scan, byte: u8) -> Scan {
    if before.quoted {
        if before.escaped {
            Scan { escaped: false, ..before }
        } else if byte == 0x5c {
            Scan { escaped: true, ..before }
        } else if byte == 0x22 {
            Scan { quoted: false, ..before }
        } else {
            before
        }
    } else if byte == 0x22 {
        Scan { quoted: true, ..before }
    } else if byte == 0x5b || byte == 0x7b {
        Scan {
            depth: before.depth + 1,
            deepest: if before.depth + 1 > before.deepest {
                before.depth + 1
            } else {
                before.deepest
            },
            ..before
        }
    } else if (byte == 0x5d || byte == 0x7d) && before.depth > 0 {
        Scan { depth: (before.depth - 1) as nat, ..before }
    } else {
        before
    }
}

/// Where the reading stands after all of `bytes`.
pub open spec fn scanned(bytes: Seq<u8>) -> Scan
    decreases bytes.len(),
{
    if bytes.len() == 0 {
        scan_start()
    } else {
        scan_step(scanned(bytes.drop_last()), bytes.last())
    }
}

/// How deeply the brackets and braces of `text` nest.
pub open spec fn nesting(text: Seq<char>) -> nat {
    scanned(encode_utf8(text)).deepest
}

/// No more levels are ever open, or were, than bytes have been read.
pub proof fn lemma_nesting_within_length(bytes: Seq<u8>)
    ensures
        scanned(bytes).depth <= scanned(bytes).deepest <= bytes.len(),
    decreases bytes.len(),
{
    if bytes.len() > 0 {
        lemma_nesting_within_length(bytes.drop_last());
    }
}

/// Measures how deeply the brackets and braces of `text` nest.
pub fn deepest_nesting(text: &str) -> (deepest: usize)
    ensures
        deepest == nesting(text@),
{
    let bytes = text.as_bytes();
    let mut depth: usize = 0;
    let mut deepest: usize = 0;
    let mut quoted = false;
    let mut escaped = false;
    let mut i: usize = 0;
    assert(bytes@.take(0) =~= Seq::empty());
    while i < bytes.len()
        invariant
            i <= bytes.len(),
            bytes@ == encode_utf8(text@),
            scanned(bytes@.take(i as int)) == (Scan {
                depth: depth as nat,
                deepest: deepest as nat,
                quoted,
                escaped,
            }),
        decreases bytes.len() - i,
    {
        let byte = bytes[i];
        proof {
            let longer = bytes@.take(i + 1);
            assert(longer.drop_last() =~= bytes@.take(i as int));
            assert(longer.last() == byte);
            lemma_nesting_within_length(bytes@.take(i as int));
        }
        if quoted {
            if escaped {
                escaped = false;
            } else if byte == 0x5c {
                escaped = true;
            } else if byte == 0x22 {
                quoted = false;
            }
        } else if byte == 0x22 {
            quoted = true;
        } else if byte == 0x5b || byte == 0x7b {
            depth = depth + 1;
            if depth > deepest {
                deepest = depth;
            }
        } else if (byte == 0x5d || byte == 0x7d) && depth > 0 {
            depth = depth - 1;
        }
        i += 1;
    }
    assert(bytes@.take(i as int) =~= bytes@);
    deepest
}

} // verus!
