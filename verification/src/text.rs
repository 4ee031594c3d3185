use vstd::prelude::*;
use vstd::utf8::decode_utf8;
use vstd::utf8::valid_utf8;

verus! {

/// Relies on `core::str::from_utf8`: it succeeds exactly on valid UTF-8 and
/// hands back the decoded characters.
#[verifier::external_body]
pub fn decode_text(bytes: &Vec<u8>) -> (r: Option<String>)
    ensures
        r is Some <==> valid_utf8(bytes@),
        r matches Some(s) ==> s@ == decode_utf8(bytes@),
{
    match core::str::from_utf8(bytes.as_slice()) {
        Ok(s) => Some(s.to_owned()),
        Err(_) => None,
    }
}

/// Relies on `str::chars`: it yields the text's characters in order.
#[verifier::external_body]
pub fn chars_vec(s: &str) -> (r: Vec<char>)
    ensures
        r@ == s@,
{
    s.chars().collect()
}

/// Relies on `String`'s `FromIterator<char>` impl: collecting characters
/// builds the text that holds exactly those characters in order.
#[verifier::external_body]
pub fn string_from_chars(v: &Vec<char>) -> (r: String)
    ensures
        r@ == v@,
{
    v.iter().collect()
}

/// The ASCII-lowercase counterpart of a character: an ASCII capital letter
/// maps to its small form, anything else is unchanged.
pub open spec fn lower_char(c: char) -> char {
    if c == 'A' {
        'a'
    } else if c == 'B' {
        'b'
    } else if c == 'C' {
        'c'
    } else if c == 'D' {
        'd'
    } else if c == 'E' {
        'e'
    } else if c == 'F' {
        'f'
    } else if c == 'G' {
        'g'
    } else if c == 'H' {
        'h'
    } else if c == 'I' {
        'i'
    } else if c == 'J' {
        'j'
    } else if c == 'K' {
        'k'
    } else if c == 'L' {
        'l'
    } else if c == 'M' {
        'm'
    } else if c == 'N' {
        'n'
    } else if c == 'O' {
        'o'
    } else if c == 'P' {
        'p'
    } else if c == 'Q' {
        'q'
    } else if c == 'R' {
        'r'
    } else if c == 'S' {
        's'
    } else if c == 'T' {
        't'
    } else if c == 'U' {
        'u'
    } else if c == 'V' {
        'v'
    } else if c == 'W' {
        'w'
    } else if c == 'X' {
        'x'
    } else if c == 'Y' {
        'y'
    } else if c == 'Z' {
        'z'
    } else {
        c
    }
}

/// Executable ASCII lowercasing of one character.
pub fn to_lower(c: char) -> (r: char)
    ensures
        r == lower_char(c),
{
    if c == 'A' {
        'a'
    } else if c == 'B' {
        'b'
    } else if c == 'C' {
        'c'
    } else if c == 'D' {
        'd'
    } else if c == 'E' {
        'e'
    } else if c == 'F' {
        'f'
    } else if c == 'G' {
        'g'
    } else if c == 'H' {
        'h'
    } else if c == 'I' {
        'i'
    } else if c == 'J' {
        'j'
    } else if c == 'K' {
        'k'
    } else if c == 'L' {
        'l'
    } else if c == 'M' {
        'm'
    } else if c == 'N' {
        'n'
    } else if c == 'O' {
        'o'
    } else if c == 'P' {
        'p'
    } else if c == 'Q' {
        'q'
    } else if c == 'R' {
        'r'
    } else if c == 'S' {
        's'
    } else if c == 'T' {
        't'
    } else if c == 'U' {
        'u'
    } else if c == 'V' {
        'v'
    } else if c == 'W' {
        'w'
    } else if c == 'X' {
        'x'
    } else if c == 'Y' {
        'y'
    } else if c == 'Z' {
        'z'
    } else {
        c
    }
}

/// Whether a character has the Unicode White_Space property, the notion of
/// whitespace that `str::trim` strips.
pub open spec fn is_space(c: char) -> bool {
    let u = c as u32;
    u == 0x9 || u == 0xA || u == 0xB || u == 0xC || u == 0xD || u == 0x20 || u == 0x85
        || u == 0xA0 || u == 0x1680 || (0x2000 <= u && u <= 0x200A) || u == 0x2028 || u == 0x2029
        || u == 0x202F || u == 0x205F || u == 0x3000
}

/// Executable test for the Unicode White_Space property.
pub fn is_space_char(c: char) -> (r: bool)
    ensures
        r == is_space(c),
{
    let u: u32 = c as u32;
    u == 0x9 || u == 0xA || u == 0xB || u == 0xC || u == 0xD || u == 0x20 || u == 0x85
        || u == 0xA0 || u == 0x1680 || (0x2000 <= u && u <= 0x200A) || u == 0x2028 || u == 0x2029
        || u == 0x202F || u == 0x205F || u == 0x3000
}

/// The characters with leading whitespace removed.
pub open spec fn trim_front(s: Seq<char>) -> Seq<char>
    decreases s.len(),
{
    if s.len() > 0 && is_space(s[0]) {
        trim_front(s.drop_first())
    } else {
        s
    }
}

/// The characters with trailing whitespace removed.
pub open spec fn trim_back(s: Seq<char>) -> Seq<char>
    decreases s.len(),
{
    if s.len() > 0 && is_space(s.last()) {
        trim_back(s.drop_last())
    } else {
        s
    }
}

/// ASCII-lowercased characters.
pub open spec fn lower_seq(s: Seq<char>) -> Seq<char> {
    s.map_values(|c: char| lower_char(c))
}

/// The normal form a chat text is matched in: ASCII-lowercased, then
/// stripped of surrounding whitespace.
pub open spec fn normalized(s: Seq<char>) -> Seq<char> {
    trim_back(trim_front(lower_seq(s)))
}

/// Lowercases and trims a chat text, yielding its characters in normal form.
pub fn normalize(text: &str) -> (r: Vec<char>)
    ensures
        r@ == normalized(text@),
{
    let cs = chars_vec(text);
    let mut low: Vec<char> = Vec::new();
    let mut i: usize = 0;
    while i < cs.len()
        invariant
            i <= cs.len(),
            cs@ == text@,
            low@ == lower_seq(cs@.take(i as int)),
        decreases cs.len() - i,
    {
        low.push(to_lower(cs[i]));
        proof {
            assert(low@ =~= lower_seq(cs@.take(i + 1 as int)));
        }
        i = i + 1;
    }
    proof {
        assert(cs@.take(cs@.len() as int) =~= cs@);
    }
    let ghost full: Seq<char> = lower_seq(text@);
    proof {
        assert(full.skip(0) =~= full);
    }
    let mut a: usize = 0;
    while a < low.len() && is_space_char(low[a])
        invariant
            a <= low.len(),
            low@ == full,
            trim_front(full) == trim_front(full.skip(a as int)),
        decreases low.len() - a,
    {
        proof {
            assert(full.skip(a as int).drop_first() =~= full.skip(a + 1 as int));
        }
        a = a + 1;
    }
    proof {
        if a < low.len() {
            assert(!is_space(full.skip(a as int)[0]));
            assert(trim_front(full) == full.skip(a as int));
        } else {
            assert(full.skip(a as int) =~= Seq::<char>::empty());
            assert(trim_front(full) =~= full.skip(a as int));
        }
    }
    let mut b: usize = low.len();
    while b > a && is_space_char(low[b - 1])
        invariant
            a <= b <= low.len(),
            low@ == full,
            trim_front(full) == full.skip(a as int),
            trim_back(full.skip(a as int)) == trim_back(full.subrange(a as int, b as int)),
        decreases b,
    {
        proof {
            assert(full.subrange(a as int, b as int).last() == full[b - 1]);
            assert(full.subrange(a as int, b as int).drop_last() =~= full.subrange(
                a as int,
                b - 1 as int,
            ));
        }
        b = b - 1;
    }
    proof {
        if b > a {
            assert(full.subrange(a as int, b as int).last() == full[b - 1]);
            assert(trim_back(full.subrange(a as int, b as int)) == full.subrange(
                a as int,
                b as int,
            ));
        } else {
            assert(full.subrange(a as int, b as int) =~= Seq::<char>::empty());
        }
    }
    let mut out: Vec<char> = Vec::new();
    let mut j: usize = a;
    while j < b
        invariant
            a <= j <= b <= low.len(),
            low@ == full,
            out@ == full.subrange(a as int, j as int),
        decreases b - j,
    {
        out.push(low[j]);
        proof {
            assert(out@ =~= full.subrange(a as int, j + 1 as int));
        }
        j = j + 1;
    }
    proof {
        assert(out@ == normalized(text@));
    }
    out
}

/// Whether normalized chat text is exactly the recognized command.
pub fn is_voltage_command(v: &Vec<char>) -> (r: bool)
    ensures
        r == (v@ == "voltage"@),
{
    proof {
        reveal_strlit("voltage");
    }
    let ok = v.len() == 7 && v[0] == 'v' && v[1] == 'o' && v[2] == 'l' && v[3] == 't' && v[4]
        == 'a' && v[5] == 'g' && v[6] == 'e';
    proof {
        if ok {
            assert(v@ =~= "voltage"@);
        }
    }
    ok
}

} // verus!
