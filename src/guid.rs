//! GUIDs as GPT stores them (16 raw bytes, the first three fields
//! little-endian) and their canonical text form
//! `xxxxxxxx-xxxx-xxxx-xxxx-xxxxxxxxxxxx`.
use vstd::prelude::*;

verus! {

/// Length of the canonical text form of a GUID.
pub const GUID_TEXT_LEN: usize = 36;

/// The lowercase hexadecimal digit for `n` in `0..16`.
pub open spec fn hex_digit(n: int) -> char {
    if n == 0 { '0' } else if n == 1 { '1' } else if n == 2 { '2' } else if n == 3 { '3' } else if n == 4 { '4' } else if n == 5 { '5' } else if n == 6 { '6' } else if n == 7 { '7' } else if n == 8 { '8' } else if n == 9 { '9' } else if n == 10 { 'a' } else if n == 11 { 'b' } else if n == 12 { 'c' } else if n == 13 { 'd' } else if n == 14 { 'e' } else { 'f' }
}

/// The value of a hexadecimal digit of either case, or -1 for any other char.
pub open spec fn hex_value(c: char) -> int {
    if '0' <= c <= '9' {
        c as int - '0' as int
    } else if 'a' <= c <= 'f' {
        c as int - 'a' as int + 10
    } else if 'A' <= c <= 'F' {
        c as int - 'A' as int + 10
    } else {
        -1
    }
}

/// Positions of the four dashes of the text form.
pub open spec fn is_dash_pos(i: int) -> bool {
    i == 8 || i == 13 || i == 18 || i == 23
}

/// First text position of the dash-separated group that holds position `i`.
pub open spec fn group_start(i: int) -> int {
    if i < 8 {
        0
    } else if i < 13 {
        9
    } else if i < 18 {
        14
    } else if i < 23 {
        19
    } else {
        24
    }
}

/// The raw byte printed at text position `i`: the first three groups
/// print their bytes in reverse order, the last two in stored order.
pub open spec fn text_byte(i: int) -> int {
    let j = (i - group_start(i)) / 2;
    if i < 8 {
        3 - j
    } else if i < 13 {
        5 - j
    } else if i < 18 {
        7 - j
    } else if i < 23 {
        8 + j
    } else {
        10 + j
    }
}

/// Whether text position `i` holds the high digit of its byte.
pub open spec fn text_high(i: int) -> bool {
    (i - group_start(i)) % 2 == 0
}

/// The text position of the high digit of raw byte `k`.
pub open spec fn text_pos(k: int) -> int {
    if k < 4 {
        6 - 2 * k
    } else if k < 6 {
        9 + 2 * (5 - k)
    } else if k < 8 {
        14 + 2 * (7 - k)
    } else if k < 10 {
        19 + 2 * (k - 8)
    } else {
        24 + 2 * (k - 10)
    }
}

/// The canonical lowercase text of the raw GUID `g`.
pub open spec fn guid_text(g: Seq<u8>) -> Seq<char> {
    Seq::new(
        GUID_TEXT_LEN as nat,
        |i: int|
            if is_dash_pos(i) {
                '-'
            } else if text_high(i) {
                hex_digit(g[text_byte(i)] as int / 16)
            } else {
                hex_digit(g[text_byte(i)] as int % 16)
            },
    )
}

/// `t` has the shape of a GUID's text: 36 chars, dashes where the canonical
/// form has them and hexadecimal digits of either case elsewhere.
pub open spec fn is_guid_text(t: Seq<char>) -> bool {
    &&& t.len() == GUID_TEXT_LEN
    &&& forall|i: int|
        0 <= i < GUID_TEXT_LEN ==> if is_dash_pos(i) {
            #[trigger] t[i] == '-'
        } else {
            hex_value(t[i]) >= 0
        }
}

/// `t` has the shape of a GUID's text with no uppercase digit.
pub open spec fn is_lower_guid_text(t: Seq<char>) -> bool {
    &&& is_guid_text(t)
    &&& forall|i: int| 0 <= i < GUID_TEXT_LEN ==> !('A' <= #[trigger] t[i] <= 'F')
}

/// The raw GUID whose text is `t`, if `t` is the text of a GUID.
pub open spec fn guid_from_text(t: Seq<char>) -> Option<Seq<u8>> {
    if is_guid_text(t) {
        Some(
            Seq::new(
                16,
                |k: int| (hex_value(t[text_pos(k)]) * 16 + hex_value(t[text_pos(k) + 1])) as u8,
            ),
        )
    } else {
        None
    }
}

/// The one-char string of the lowercase hexadecimal digit for `n`.
fn hex_str(n: u8) -> (r: &'static str)
    requires
        n < 16,
    ensures
        r@ == seq![hex_digit(n as int)],
{
    match n {
        0 => {
            proof {
                reveal_strlit("0");
            }
            "0"
        },
        1 => {
            proof {
                reveal_strlit("1");
            }
            "1"
        },
        2 => {
            proof {
                reveal_strlit("2");
            }
            "2"
        },
        3 => {
            proof {
                reveal_strlit("3");
            }
            "3"
        },
        4 => {
            proof {
                reveal_strlit("4");
            }
            "4"
        },
        5 => {
            proof {
                reveal_strlit("5");
            }
            "5"
        },
        6 => {
            proof {
                reveal_strlit("6");
            }
            "6"
        },
        7 => {
            proof {
                reveal_strlit("7");
            }
            "7"
        },
        8 => {
            proof {
                reveal_strlit("8");
            }
            "8"
        },
        9 => {
            proof {
                reveal_strlit("9");
            }
            "9"
        },
        10 => {
            proof {
                reveal_strlit("a");
            }
            "a"
        },
        11 => {
            proof {
                reveal_strlit("b");
            }
            "b"
        },
        12 => {
            proof {
                reveal_strlit("c");
            }
            "c"
        },
        13 => {
            proof {
                reveal_strlit("d");
            }
            "d"
        },
        14 => {
            proof {
                reveal_strlit("e");
            }
            "e"
        },
        _ => {
            proof {
                reveal_strlit("f");
            }
            "f"
        },
    }
}

/// Where text position `i` takes its digit from: the raw byte, and whether
/// the digit is the byte's high one.
fn text_layout(i: usize) -> (r: (usize, bool))
    requires
        i < GUID_TEXT_LEN,
        !is_dash_pos(i as int),
    ensures
        r.0 == text_byte(i as int),
        r.1 == text_high(i as int),
        r.0 < 16,
{
    let start: usize = if i < 8 {
        0
    } else if i < 13 {
        9
    } else if i < 18 {
        14
    } else if i < 23 {
        19
    } else {
        24
    };
    let j = (i - start) / 2;
    let byte = if i < 8 {
        3 - j
    } else if i < 13 {
        5 - j
    } else if i < 18 {
        7 - j
    } else if i < 23 {
        8 + j
    } else {
        10 + j
    };
    (byte, (i - start) % 2 == 0)
}

/// Renders a raw GPT GUID in canonical lowercase text form.
pub fn format_guid(guid: &[u8; 16]) -> (r: String)
    ensures
        r@ == guid_text(guid@),
{
    let mut s = String::new();
    let mut i: usize = 0;
    while i < GUID_TEXT_LEN
        invariant
            i <= GUID_TEXT_LEN,
            guid@.len() == 16,
            s@ =~= guid_text(guid@).subrange(0, i as int),
        decreases GUID_TEXT_LEN - i,
    {
        if i == 8 || i == 13 || i == 18 || i == 23 {
            proof {
                reveal_strlit("-");
            }
            s.append("-");
        } else {
            let (k, high) = text_layout(i);
            let b = guid[k];
            let n = if high { b / 16 } else { b % 16 };
            s.append(hex_str(n));
        }
        i = i + 1;
        assert(s@ =~= guid_text(guid@).subrange(0, i as int));
    }
    s
}

/// The value of the ASCII hexadecimal digit `c`, which is the byte of the
/// char `ch`.
fn hex_nibble(c: u8, Ghost(ch): Ghost<char>) -> (r: Option<u8>)
    requires
        c == ch as u8,
        ch <= '\u{7f}',
    ensures
        match r {
            Some(v) => v == hex_value(ch) && v < 16,
            None => hex_value(ch) < 0,
        },
{
    if 0x30 <= c && c <= 0x39 {
        Some(c - 0x30)
    } else if 0x61 <= c && c <= 0x66 {
        Some(c - 0x61 + 10)
    } else if 0x41 <= c && c <= 0x46 {
        Some(c - 0x41 + 10)
    } else {
        None
    }
}

/// The text position of the high digit of raw byte `k`.
fn digit_pos(k: usize) -> (r: usize)
    requires
        k < 16,
    ensures
        r == text_pos(k as int),
        r + 1 < GUID_TEXT_LEN,
{
    if k < 4 {
        6 - 2 * k
    } else if k < 6 {
        9 + 2 * (5 - k)
    } else if k < 8 {
        14 + 2 * (7 - k)
    } else if k < 10 {
        19 + 2 * (k - 8)
    } else {
        24 + 2 * (k - 10)
    }
}

/// The only ASCII char whose byte is `0x2D` is the dash.
proof fn lemma_ascii_dash(c: char)
    requires
        c <= '\u{7f}',
        c as u8 == 0x2D,
    ensures
        c == '-',
{
}

/// Reads a GUID from its text form (hexadecimal digits of either case) into
/// its raw mixed-endian bytes; `None` when `s` is not the text of a GUID.
pub fn parse_guid(s: &str) -> (r: Option<[u8; 16]>)
    ensures
        match guid_from_text(s@) {
            Some(g) => r is Some && r->Some_0@ == g,
            None => r is None,
        },
{
    if !s.is_ascii() {
        proof {
            if is_guid_text(s@) {
                assert forall|i: int| 0 <= i < s@.len() implies '\0' <= #[trigger] s@[i] <= '\u{7f}' by {
                    if !is_dash_pos(i) {
                        assert(hex_value(s@[i]) >= 0);
                    }
                }
            }
        }
        return None;
    }
    let b = s.as_bytes();
    proof {
        vstd::string::is_ascii_spec_bytes(s);
    }
    if b.len() != GUID_TEXT_LEN {
        return None;
    }
    let mut i: usize = 0;
    while i < GUID_TEXT_LEN
        invariant
            i <= GUID_TEXT_LEN,
            b@.len() == GUID_TEXT_LEN,
            s@.len() == GUID_TEXT_LEN,
            forall|j: int| 0 <= j < s@.len() ==> b@[j] == (#[trigger] s@[j]) as u8 && s@[j] <= '\u{7f}',
            forall|j: int|
                0 <= j < i ==> if is_dash_pos(j) {
                    #[trigger] s@[j] == '-'
                } else {
                    hex_value(s@[j]) >= 0
                },
        decreases GUID_TEXT_LEN - i,
    {
        let ghost ch = s@[i as int];
        if i == 8 || i == 13 || i == 18 || i == 23 {
            if b[i] != 0x2D {
                return None;
            }
            proof {
                lemma_ascii_dash(ch);
            }
        } else if hex_nibble(b[i], Ghost(ch)).is_none() {
            return None;
        }
        i = i + 1;
    }
    assert(is_guid_text(s@));
    let ghost g = guid_from_text(s@)->Some_0;
    let mut out = [0u8; 16];
    let mut k: usize = 0;
    while k < 16
        invariant
            k <= 16,
            is_guid_text(s@),
            g == guid_from_text(s@)->Some_0,
            b@.len() == GUID_TEXT_LEN,
            forall|j: int| 0 <= j < s@.len() ==> b@[j] == (#[trigger] s@[j]) as u8 && s@[j] <= '\u{7f}',
            forall|j: int| 0 <= j < k ==> out@[j] == #[trigger] g[j],
        decreases 16 - k,
    {
        let p = digit_pos(k);
        let hi = hex_nibble(b[p], Ghost(s@[p as int])).unwrap();
        let lo = hex_nibble(b[p + 1], Ghost(s@[p + 1])).unwrap();
        out[k] = hi * 16 + lo;
        k = k + 1;
    }
    assert(out@ =~= g);
    Some(out)
}

/// Formatting a raw GUID and reading the text back gives the same bytes.
pub proof fn lemma_guid_bytes_round_trip(g: Seq<u8>)
    requires
        g.len() == 16,
    ensures
        guid_from_text(guid_text(g)) == Some(g),
{
    let t = guid_text(g);
    assert forall|i: int| 0 <= i < GUID_TEXT_LEN implies if is_dash_pos(i) {
        #[trigger] t[i] == '-'
    } else {
        hex_value(t[i]) >= 0
    } by {
        if !is_dash_pos(i) {
            assert(0 <= text_byte(i) < 16);
        }
    }
    let h = guid_from_text(t)->Some_0;
    assert forall|k: int| 0 <= k < 16 implies #[trigger] h[k] == g[k] by {
        let p = text_pos(k);
        assert(!is_dash_pos(p) && text_high(p) && text_byte(p) == k);
        assert(!is_dash_pos(p + 1) && !text_high(p + 1) && text_byte(p + 1) == k);
        assert(hex_value(t[p]) == g[k] / 16);
        assert(hex_value(t[p + 1]) == g[k] % 16);
    }
    assert(h =~= g);
}

/// Reading lowercase GUID text and formatting the bytes gives the same text.
pub proof fn lemma_guid_text_round_trip(t: Seq<char>)
    requires
        is_lower_guid_text(t),
    ensures
        guid_from_text(t) is Some,
        guid_text(guid_from_text(t)->Some_0) == t,
{
    let g = guid_from_text(t)->Some_0;
    let u = guid_text(g);
    assert forall|i: int| 0 <= i < GUID_TEXT_LEN implies #[trigger] u[i] == t[i] by {
        if !is_dash_pos(i) {
            let k = text_byte(i);
            let p = text_pos(k);
            assert(0 <= k < 16);
            assert(p == i || p + 1 == i);
            assert(text_high(i) <==> p == i);
            assert(hex_value(t[p]) >= 0 && hex_value(t[p + 1]) >= 0);
            assert(!('A' <= t[i] <= 'F'));
            let v = hex_value(t[p]) * 16 + hex_value(t[p + 1]);
            assert(g[k] == v);
            assert(v / 16 == hex_value(t[p]) && v % 16 == hex_value(t[p + 1]));
        }
    }
    assert(u =~= t);
}

} // verus!
