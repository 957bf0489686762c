use vstd::prelude::*;

verus! {

/// Visual class of a single character: ordinary text, or a member of the
/// fixed highlight set of common code punctuation and ASCII digits.
#[derive(Clone, Copy, Debug, PartialEq, Eq, Structural)]
pub enum CharClass {
    Plain,
    Highlighted,
}

/// The fixed highlight set: 26 punctuation characters plus the ten ASCII
/// digits, 36 characters in all. Immutable for the process lifetime.
pub open spec fn is_highlight_char(c: char) -> bool {
    ||| c == '('
    ||| c == ')'
    ||| c == ','
    ||| c == ';'
    ||| c == ':'
    ||| c == '.'
    ||| c == '+'
    ||| c == '*'
    ||| c == '\''
    ||| c == '"'
    ||| c == '-'
    ||| c == '='
    ||| c == '{'
    ||| c == '}'
    ||| c == '['
    ||| c == ']'
    ||| c == '~'
    ||| c == '/'
    ||| c == '\\'
    ||| c == '&'
    ||| c == '?'
    ||| c == '<'
    ||| c == '>'
    ||| c == '|'
    ||| c == '`'
    ||| c == '!'
    ||| c == '0'
    ||| c == '1'
    ||| c == '2'
    ||| c == '3'
    ||| c == '4'
    ||| c == '5'
    ||| c == '6'
    ||| c == '7'
    ||| c == '8'
    ||| c == '9'
}

/// The class a character is rendered in.
pub open spec fn class_of(c: char) -> CharClass {
    if is_highlight_char(c) {
        CharClass::Highlighted
    } else {
        CharClass::Plain
    }
}

/// Maps a character to its visual class. Pure and total: `Highlighted`
/// exactly for members of the highlight set, `Plain` for everything else.
pub fn classify(c: char) -> (class: CharClass)
    ensures
        class == class_of(c),
        class is Highlighted <==> is_highlight_char(c),
{
    match c {
        '(' | ')' | ',' | ';' | ':' | '.' | '+' | '*' | '\'' | '"' | '-' | '=' | '{' | '}'
        | '[' | ']' | '~' | '/' | '\\' | '&' | '?' | '<' | '>' | '|' | '`' | '!' | '0' | '1'
        | '2' | '3' | '4' | '5' | '6' | '7' | '8' | '9' => CharClass::Highlighted,
        _ => CharClass::Plain,
    }
}

} // verus!
