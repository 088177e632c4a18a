use vstd::prelude::*;

verus! {

/// The Morse code of each supported character: a string over `{'.', '-'}`.
///
/// The mapping is total over a fixed, closed set of 40 symbols — the
/// uppercase letters, the digits, and `'?'`, `','`, `'.'`, `'/'` — and
/// `None` for every other character. This is a deliberate closed-world
/// design: an unsupported character is an error, never a substitution.
pub open spec fn code_of(c: char) -> Option<Seq<char>> {
    match c {
        'A' => Some(".-"@),
        'B' => Some("-..."@),
        'C' => Some("-.-."@),
        'D' => Some("-.."@),
        'E' => Some("."@),
        'F' => Some("..-."@),
        'G' => Some("--."@),
        'H' => Some("...."@),
        'I' => Some(".."@),
        'J' => Some(".---"@),
        'K' => Some("-.-"@),
        'L' => Some(".-.."@),
        'M' => Some("--"@),
        'N' => Some("-."@),
        'O' => Some("---"@),
        'P' => Some(".--."@),
        'Q' => Some("--.-"@),
        'R' => Some(".-."@),
        'S' => Some("..."@),
        'T' => Some("-"@),
        'U' => Some("..-"@),
        'V' => Some("...-"@),
        'W' => Some(".--"@),
        'X' => Some("-..-"@),
        'Y' => Some("-.--"@),
        'Z' => Some("--.."@),
        '0' => Some("-----"@),
        '1' => Some(".----"@),
        '2' => Some("..---"@),
        '3' => Some("...--"@),
        '4' => Some("....-"@),
        '5' => Some("....."@),
        '6' => Some("-...."@),
        '7' => Some("--..."@),
        '8' => Some("---.."@),
        '9' => Some("----."@),
        '?' => Some("..--.."@),
        ',' => Some("--..--"@),
        '.' => Some(".-.-.-"@),
        '/' => Some("-..-."@),
        _ => None,
    }
}

/// Whether a character is one of the 40 supported symbols.
pub open spec fn supported(c: char) -> bool {
    code_of(c) is Some
}

/// ASCII uppercasing: the lowercase letters map to their uppercase
/// forms, every other character is unchanged.
pub open spec fn to_upper_spec(c: char) -> char {
    match c {
        'a' => 'A',
        'b' => 'B',
        'c' => 'C',
        'd' => 'D',
        'e' => 'E',
        'f' => 'F',
        'g' => 'G',
        'h' => 'H',
        'i' => 'I',
        'j' => 'J',
        'k' => 'K',
        'l' => 'L',
        'm' => 'M',
        'n' => 'N',
        'o' => 'O',
        'p' => 'P',
        'q' => 'Q',
        'r' => 'R',
        's' => 'S',
        't' => 'T',
        'u' => 'U',
        'v' => 'V',
        'w' => 'W',
        'x' => 'X',
        'y' => 'Y',
        'z' => 'Z',
        _ => c,
    }
}

/// Uppercase an ASCII letter; other characters pass through unchanged.
pub fn to_upper(c: char) -> (r: char)
    ensures
        r == to_upper_spec(c),
{
    match c {
        'a' => 'A',
        'b' => 'B',
        'c' => 'C',
        'd' => 'D',
        'e' => 'E',
        'f' => 'F',
        'g' => 'G',
        'h' => 'H',
        'i' => 'I',
        'j' => 'J',
        'k' => 'K',
        'l' => 'L',
        'm' => 'M',
        'n' => 'N',
        'o' => 'O',
        'p' => 'P',
        'q' => 'Q',
        'r' => 'R',
        's' => 'S',
        't' => 'T',
        'u' => 'U',
        'v' => 'V',
        'w' => 'W',
        'x' => 'X',
        'y' => 'Y',
        'z' => 'Z',
        _ => c,
    }
}

/// Look up the Morse code of an (already uppercased) character.
///
/// Returns `None` exactly for characters outside the supported
/// alphabet: the caller must treat that as a fatal error, never
/// substitute or drop the character silently.
pub fn lookup(c: char) -> (r: Option<&'static str>)
    ensures
        r is Some <==> supported(c),
        r matches Some(code) ==> code@ == code_of(c).unwrap(),
{
    match c {
        'A' => Some(".-"),
        'B' => Some("-..."),
        'C' => Some("-.-."),
        'D' => Some("-.."),
        'E' => Some("."),
        'F' => Some("..-."),
        'G' => Some("--."),
        'H' => Some("...."),
        'I' => Some(".."),
        'J' => Some(".---"),
        'K' => Some("-.-"),
        'L' => Some(".-.."),
        'M' => Some("--"),
        'N' => Some("-."),
        'O' => Some("---"),
        'P' => Some(".--."),
        'Q' => Some("--.-"),
        'R' => Some(".-."),
        'S' => Some("..."),
        'T' => Some("-"),
        'U' => Some("..-"),
        'V' => Some("...-"),
        'W' => Some(".--"),
        'X' => Some("-..-"),
        'Y' => Some("-.--"),
        'Z' => Some("--.."),
        '0' => Some("-----"),
        '1' => Some(".----"),
        '2' => Some("..---"),
        '3' => Some("...--"),
        '4' => Some("....-"),
        '5' => Some("....."),
        '6' => Some("-...."),
        '7' => Some("--..."),
        '8' => Some("---.."),
        '9' => Some("----."),
        '?' => Some("..--.."),
        ',' => Some("--..--"),
        '.' => Some(".-.-.-"),
        '/' => Some("-..-."),
        _ => None,
    }
}

/// Every supported character has a non-empty code, so scheduling it
/// always produces at least one segment.
pub proof fn lemma_code_nonempty(c: char)
    requires
        supported(c),
    ensures
        code_of(c).unwrap().len() > 0,
{
    reveal_strlit(".-");
    reveal_strlit("-...");
    reveal_strlit("-.-.");
    reveal_strlit("-..");
    reveal_strlit(".");
    reveal_strlit("..-.");
    reveal_strlit("--.");
    reveal_strlit("....");
    reveal_strlit("..");
    reveal_strlit(".---");
    reveal_strlit("-.-");
    reveal_strlit(".-..");
    reveal_strlit("--");
    reveal_strlit("-.");
    reveal_strlit("---");
    reveal_strlit(".--.");
    reveal_strlit("--.-");
    reveal_strlit(".-.");
    reveal_strlit("...");
    reveal_strlit("-");
    reveal_strlit("..-");
    reveal_strlit("...-");
    reveal_strlit(".--");
    reveal_strlit("-..-");
    reveal_strlit("-.--");
    reveal_strlit("--..");
    reveal_strlit("-----");
    reveal_strlit(".----");
    reveal_strlit("..---");
    reveal_strlit("...--");
    reveal_strlit("....-");
    reveal_strlit(".....");
    reveal_strlit("-....");
    reveal_strlit("--...");
    reveal_strlit("---..");
    reveal_strlit("----.");
    reveal_strlit("..--..");
    reveal_strlit("--..--");
    reveal_strlit(".-.-.-");
    reveal_strlit("-..-.");
}

/// Case-insensitivity of the symbol table: every supported character is
/// already in its uppercase form, so uppercasing it first does not
/// change what the lookup returns.
pub proof fn lemma_lookup_case_insensitive(c: char)
    requires
        supported(c),
    ensures
        code_of(to_upper_spec(c)) == code_of(c),
{
}

} // verus!
