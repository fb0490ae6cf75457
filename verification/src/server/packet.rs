//! Packet-level helpers of the remote-debug protocol: hex conversions in
//! both directions, the modular checksum, and the leading-alpha command
//! splitter.

use vstd::prelude::*;

verus! {

/// Whether a byte is an ASCII hex digit.
pub open spec fn is_hex(c: u8) -> bool {
    (48 <= c && c <= 57) || (97 <= c && c <= 102) || (65 <= c && c <= 70)
}

/// The value of an ASCII hex digit.
pub open spec fn hex_digit_val(c: u8) -> u8 {
    if 48 <= c && c <= 57 {
        (c - 48) as u8
    } else if 97 <= c && c <= 102 {
        (c - 97 + 10) as u8
    } else if 65 <= c && c <= 70 {
        (c - 65 + 10) as u8
    } else {
        0
    }
}

pub fn is_hex_char(c: u8) -> (r: bool)
    ensures
        r == is_hex(c),
{
    (48 <= c && c <= 57) || (97 <= c && c <= 102) || (65 <= c && c <= 70)
}

/// Takes an ASCII hex digit and returns its value; anything else is
/// rejected.
pub fn hex_to_byte(c: u8) -> (r: Result<u8, ()>)
    ensures
        is_hex(c) ==> r == Ok::<u8, ()>(hex_digit_val(c)),
        !is_hex(c) ==> r == Err::<u8, ()>(()),
{
    if 48 <= c && c <= 57 {
        Ok(c - 48)
    } else if 97 <= c && c <= 102 {
        Ok(c - 97 + 10)
    } else if 65 <= c && c <= 70 {
        Ok(c - 65 + 10)
    } else {
        Err(())
    }
}

/// Two hex digits make a byte, high digit first.
pub fn get_u8_from_hex(hex: (u8, u8)) -> (r: Result<u8, ()>)
    ensures
        is_hex(hex.0) && is_hex(hex.1) ==> r == Ok::<u8, ()>(
            (hex_digit_val(hex.0) * 16 + hex_digit_val(hex.1)) as u8,
        ),
        !(is_hex(hex.0) && is_hex(hex.1)) ==> r == Err::<u8, ()>(()),
{
    let b1 = hex_to_byte(hex.0);
    let b2 = hex_to_byte(hex.1);
    match (b1, b2) {
        (Ok(h), Ok(l)) => Ok(h * 16 + l),
        _ => Err(()),
    }
}

/// The value of a big-endian sequence of hex digits.
pub open spec fn hex_seq_val(s: Seq<u8>) -> nat
    decreases s.len(),
{
    if s.len() == 0 {
        0
    } else {
        (hex_seq_val(s.drop_last()) * 16 + hex_digit_val(s.last())) as nat
    }
}

pub open spec fn all_hex(s: Seq<u8>) -> bool {
    forall|i: int| 0 <= i < s.len() ==> is_hex(#[trigger] s[i])
}

/// Parses a big-endian hex number into a word. Succeeds exactly on a
/// non-empty all-hex-digit input whose value fits in 32 bits.
pub fn hex_to_word(hex: &[u8]) -> (r: Result<u32, ()>)
    ensures
        (hex@.len() > 0 && all_hex(hex@) && hex_seq_val(hex@) < 0x1_0000_0000) ==> r == Ok::<
            u32,
            (),
        >(hex_seq_val(hex@) as u32),
        !(hex@.len() > 0 && all_hex(hex@) && hex_seq_val(hex@) < 0x1_0000_0000) ==> r == Err::<
            u32,
            (),
        >(()),
{
    let n = hex.len();
    if n == 0 {
        return Err(());
    }
    let mut value: u32 = 0;
    let mut i: usize = 0;
    while i < n
        invariant
            i <= n,
            n == hex@.len(),
            all_hex(hex@.take(i as int)),
            value == hex_seq_val(hex@.take(i as int)),
        decreases n - i,
    {
        let c = hex[i];
        let d = match hex_to_byte(c) {
            Ok(d) => d,
            Err(_) => {
                proof {
                    assert(!all_hex(hex@));
                }
                return Err(());
            },
        };
        if value > 0x0FFF_FFFF {
            proof {
                lemma_hex_seq_val_grows(hex@, (i + 1) as int);
                assert(hex@.take(i + 1).drop_last() == hex@.take(i as int));
            }
            return Err(());
        }
        value = value * 16 + (d as u32);
        proof {
            assert(hex@.take(i + 1).drop_last() == hex@.take(i as int));
            assert(hex@.take(i + 1).last() == hex@[i as int]);
        }
        i = i + 1;
    }
    proof {
        assert(hex@.take(n as int) == hex@);
    }
    Ok(value)
}

/// A longer hex string is worth at least sixteen times its prefix, so an
/// overflowing prefix can never recover.
proof fn lemma_hex_seq_val_grows(s: Seq<u8>, k: int)
    requires
        0 < k <= s.len(),
    ensures
        hex_seq_val(s.take(k)) >= 16 * hex_seq_val(s.take(k - 1)),
        hex_seq_val(s) >= hex_seq_val(s.take(k)),
    decreases s.len() - k,
{
    assert(s.take(k).drop_last() == s.take(k - 1));
    if k < s.len() {
        lemma_hex_seq_val_grows(s, k + 1);
        assert(s.take(k + 1).drop_last() == s.take(k));
    } else {
        assert(s.take(k) == s);
    }
}

/// The low nibble as a lowercase ASCII hex digit.
pub open spec fn hex_char_lower(nibble: u32) -> u8 {
    if nibble % 16 < 10 {
        (48 + nibble % 16) as u8
    } else {
        (97 + nibble % 16 - 10) as u8
    }
}

/// The low nibble as an uppercase ASCII hex digit.
pub open spec fn hex_char_upper(nibble: u32) -> u8 {
    if nibble % 16 < 10 {
        (48 + nibble % 16) as u8
    } else {
        (65 + nibble % 16 - 10) as u8
    }
}

fn nibble_lower(nibble: u32) -> (r: u8)
    ensures
        r == hex_char_lower(nibble),
        r < 128,
{
    let n = nibble % 16;
    if n < 10 {
        48 + (n as u8)
    } else {
        97 + (n as u8) - 10
    }
}

/// Eight lowercase hex digits, most significant first.
pub fn word_to_hex(word: u32) -> (r: String)
    ensures
        r@.len() == 8,
        forall|k: int|
            0 <= k < 8 ==> r@[k] == (hex_char_lower(word >> ((7 - k) * 4) as u32) as char),
{
    let mut bytes: Vec<u8> = Vec::new();
    let mut k: usize = 0;
    while k < 8
        invariant
            k <= 8,
            bytes@.len() == k,
            forall|j: int|
                0 <= j < k ==> bytes@[j] == hex_char_lower(word >> ((7 - j) * 4) as u32),
            forall|j: int| 0 <= j < k ==> bytes@[j] < 128,
        decreases 8 - k,
    {
        let shift = (7 - (k as u32)) * 4;
        bytes.push(nibble_lower(word >> shift));
        k = k + 1;
    }
    let s = crate::text::ascii_string(&bytes);
    proof {
        assert(forall|k: int| 0 <= k < 8 ==> s@[k] == (bytes@[k] as char));
    }
    s
}

/// The sum of a byte sequence, wrapping at 256.
pub open spec fn sum8(s: Seq<u8>) -> u8
    decreases s.len(),
{
    if s.len() == 0 {
        0u8
    } else {
        ((sum8(s.drop_last()) + s.last()) % 256) as u8
    }
}

/// A packet body is valid iff its wrapping byte sum equals the checksum.
pub fn validate_packet(data: &[u8], check: u8) -> (r: bool)
    ensures
        r == (sum8(data@) == check),
{
    let n = data.len();
    let mut sum: u8 = 0;
    let mut i: usize = 0;
    while i < n
        invariant
            i <= n,
            n == data@.len(),
            sum == sum8(data@.take(i as int)),
        decreases n - i,
    {
        sum = sum.wrapping_add(data[i]);
        proof {
            assert(data@.take(i + 1).drop_last() == data@.take(i as int));
            assert(data@.take(i + 1).last() == data@[i as int]);
        }
        i = i + 1;
    }
    proof {
        assert(data@.take(n as int) == data@);
    }
    sum == check
}

/// Whether a byte is an ASCII letter.
pub open spec fn is_alpha(c: u8) -> bool {
    (97 <= c && c <= 122) || (65 <= c && c <= 90)
}

/// The longest prefix of ASCII letters: the command name of a packet.
pub fn leading_alpha<'a>(data: &'a [u8]) -> (r: &'a [u8])
    ensures
        r@.len() <= data@.len(),
        r@ == data@.take(r@.len() as int),
        forall|i: int| 0 <= i < r@.len() ==> is_alpha(#[trigger] r@[i]),
        r@.len() < data@.len() ==> !is_alpha(data@[r@.len() as int]),
{
    let n = data.len();
    let mut i: usize = 0;
    while i < n
        invariant
            i <= n,
            n == data@.len(),
            forall|j: int| 0 <= j < i ==> is_alpha(#[trigger] data@[j]),
        decreases n - i,
    {
        let c = data[i];
        if !((97 <= c && c <= 122) || (65 <= c && c <= 90)) {
            let r = vstd::slice::slice_subrange(data, 0, i);
            proof {
                assert(r@ == data@.take(i as int));
            }
            return r;
        }
        i = i + 1;
    }
    let r = vstd::slice::slice_subrange(data, 0, n);
    proof {
        assert(r@ == data@.take(n as int));
    }
    r
}

fn nibble_upper(nibble: u32) -> (r: u8)
    ensures
        r == hex_char_upper(nibble),
        r < 128,
{
    let n = nibble % 16;
    if n < 10 {
        48 + (n as u8)
    } else {
        65 + (n as u8) - 10
    }
}

/// The checksum of a packet body as two uppercase hex digits.
pub fn get_checksum_hex(packet: &[u8]) -> (r: String)
    ensures
        r@.len() == 2,
        r@[0] == (hex_char_upper((sum8(packet@) as u32) / 16) as char),
        r@[1] == (hex_char_upper(sum8(packet@) as u32) as char),
{
    let n = packet.len();
    let mut sum: u8 = 0;
    let mut i: usize = 0;
    while i < n
        invariant
            i <= n,
            n == packet@.len(),
            sum == sum8(packet@.take(i as int)),
        decreases n - i,
    {
        sum = sum.wrapping_add(packet[i]);
        proof {
            assert(packet@.take(i + 1).drop_last() == packet@.take(i as int));
            assert(packet@.take(i + 1).last() == packet@[i as int]);
        }
        i = i + 1;
    }
    proof {
        assert(packet@.take(n as int) == packet@);
    }
    let mut bytes: Vec<u8> = Vec::new();
    bytes.push(nibble_upper((sum as u32) / 16));
    bytes.push(nibble_upper(sum as u32));
    crate::text::ascii_string(&bytes)
}

/// Where the framing state machine stands in the byte stream.
#[derive(Clone, Copy, Debug, PartialEq, Eq, Structural)]
pub enum FrameState {
    Start,
    Data,
    Checksum,
}

/// What one byte of the stream produced.
#[derive(Debug, PartialEq)]
pub enum FrameEvent {
    /// An interrupt or acknowledgement byte outside any packet.
    SingleByte(u8),
    /// A complete packet body whose checksum matched.
    Packet(Vec<u8>),
}

/// Assembles `$<body>#<hi><lo>` packets out of a raw byte stream. A body
/// is only ever handed out with its checksum verified; stray bytes
/// outside packets are either the single-byte notifications of the
/// protocol or a framing error.
pub struct PacketAssembler {
    pub state: FrameState,
    pub builder: Vec<u8>,
    pub checksum_first: Option<u8>,
}

impl PacketAssembler {
    pub fn new() -> (r: PacketAssembler)
        ensures
            r.state == FrameState::Start,
            r.builder@.len() == 0,
            r.checksum_first is None,
    {
        PacketAssembler { state: FrameState::Start, builder: Vec::new(), checksum_first: None }
    }

    /// Feeds one byte. An emitted packet carries exactly the bytes built
    /// up since the opening delimiter, and only under a matching
    /// checksum: the two hex digits received equal its wrapping sum.
    pub fn push_byte(&mut self, c: u8) -> (r: Result<Option<FrameEvent>, ()>)
        ensures
            old(self).state == FrameState::Checksum ==> match old(self).checksum_first {
                Some(h) => match r {
                    Ok(ev) => ev matches Some(e) && e matches FrameEvent::Packet(p) && {
                        &&& is_hex(h)
                        &&& is_hex(c)
                        &&& sum8(p@) == hex_digit_val(h) * 16 + hex_digit_val(c)
                        &&& p@ == old(self).builder@
                        &&& final(self).state == FrameState::Start
                        &&& final(self).builder@.len() == 0
                    },
                    Err(_) => true,
                },
                None => true,
            },
            old(self).state == FrameState::Start ==> match r {
                Ok(ev) => ev matches Some(e) ==> e matches FrameEvent::SingleByte(b) && b == c && (
                c == 0x03 || c == 43 || c == 45),
                Err(_) => true,
            },
            old(self).state == FrameState::Data && c != 35 && c != 36 ==> r == Ok::<
                Option<FrameEvent>,
                (),
            >(None) && final(self).builder@ == old(self).builder@.push(c) && final(self).state
                == FrameState::Data,
    {
        match self.state {
            FrameState::Start => {
                if c == 0x03 || c == 43 || c == 45 {
                    // An interrupt, acknowledge or negative-acknowledge
                    // byte stands alone.
                    Ok(Some(FrameEvent::SingleByte(c)))
                } else if c == 36 {
                    self.state = FrameState::Data;
                    Ok(None)
                } else {
                    Err(())
                }
            },
            FrameState::Data => {
                if c == 36 {
                    Err(())
                } else if c == 35 {
                    self.state = FrameState::Checksum;
                    Ok(None)
                } else {
                    self.builder.push(c);
                    Ok(None)
                }
            },
            FrameState::Checksum => {
                match self.checksum_first {
                    None => {
                        self.checksum_first = Some(c);
                        Ok(None)
                    },
                    Some(b) => {
                        self.checksum_first = None;
                        let checksum = match get_u8_from_hex((b, c)) {
                            Ok(s) => s,
                            Err(_) => {
                                return Err(());
                            },
                        };
                        if !validate_packet(self.builder.as_slice(), checksum) {
                            return Err(());
                        }
                        let mut body: Vec<u8> = Vec::new();
                        std::mem::swap(&mut body, &mut self.builder);
                        self.state = FrameState::Start;
                        Ok(Some(FrameEvent::Packet(body)))
                    },
                }
            },
        }
    }
}

} // verus!
