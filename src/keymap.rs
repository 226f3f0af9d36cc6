//! The key symbol table: phonetic key glyphs and the engine key codes they
//! stand for.
use vstd::prelude::*;

verus! {

/// The engine key code that a single symbol glyph stands for, if the glyph
/// is in the table. The entry for `_` maps to the empty key sequence.
pub open spec fn symbol_code(c: char) -> Option<Seq<char>> {
    match c {
        'ㄅ' => Some(seq!['1']),
        'ㄉ' => Some(seq!['2']),
        'ˇ' => Some(seq!['3']),
        'ˋ' => Some(seq!['4']),
        'ㄓ' => Some(seq!['5']),
        'ˊ' => Some(seq!['6']),
        '˙' => Some(seq!['7']),
        'ㄚ' => Some(seq!['8']),
        'ㄞ' => Some(seq!['9']),
        'ㄢ' => Some(seq!['0']),
        'ㄦ' => Some(seq!['-']),
        'ㄆ' => Some(seq!['q']),
        'ㄊ' => Some(seq!['w']),
        'ㄍ' => Some(seq!['e']),
        'ㄐ' => Some(seq!['r']),
        'ㄔ' => Some(seq!['t']),
        'ㄗ' => Some(seq!['y']),
        'ㄧ' => Some(seq!['u']),
        'ㄛ' => Some(seq!['i']),
        'ㄟ' => Some(seq!['o']),
        'ㄣ' => Some(seq!['p']),
        '_' => Some(seq![]),
        'ㄇ' => Some(seq!['a']),
        'ㄋ' => Some(seq!['s']),
        'ㄎ' => Some(seq!['d']),
        'ㄑ' => Some(seq!['f']),
        'ㄕ' => Some(seq!['g']),
        'ㄘ' => Some(seq!['h']),
        'ㄨ' => Some(seq!['j']),
        'ㄜ' => Some(seq!['k']),
        'ㄠ' => Some(seq!['l']),
        'ㄤ' => Some(seq![';']),
        'ㄈ' => Some(seq!['z']),
        'ㄌ' => Some(seq!['x']),
        'ㄏ' => Some(seq!['c']),
        'ㄒ' => Some(seq!['v']),
        'ㄖ' => Some(seq!['b']),
        'ㄙ' => Some(seq!['n']),
        'ㄩ' => Some(seq!['m']),
        'ㄝ' => Some(seq![',']),
        'ㄡ' => Some(seq!['.']),
        'ㄥ' => Some(seq!['/']),
        _ => None,
    }
}

/// The code of a whole key payload: only a payload of exactly one symbol
/// glyph is found in the table.
pub open spec fn key_code(s: Seq<char>) -> Option<Seq<char>> {
    if s.len() == 1 {
        symbol_code(s[0])
    } else {
        None
    }
}

/// The key sequence handed to the engine for a key payload: its code when the
/// payload is a symbol of the table, else the payload itself.
pub open spec fn translated(s: Seq<char>) -> Seq<char> {
    match key_code(s) {
        Some(code) => code,
        None => s,
    }
}

/// Looks up one glyph in the table.
pub fn code_for_symbol(c: char) -> (r: Option<&'static str>)
    ensures
        r is Some <==> symbol_code(c) is Some,
        r matches Some(code) ==> code@ == symbol_code(c)->0,
{
    match c {
        'ㄅ' => {
            proof {
                reveal_strlit("1");
            }
            Some("1")
        },
        'ㄉ' => {
            proof {
                reveal_strlit("2");
            }
            Some("2")
        },
        'ˇ' => {
            proof {
                reveal_strlit("3");
            }
            Some("3")
        },
        'ˋ' => {
            proof {
                reveal_strlit("4");
            }
            Some("4")
        },
        'ㄓ' => {
            proof {
                reveal_strlit("5");
            }
            Some("5")
        },
        'ˊ' => {
            proof {
                reveal_strlit("6");
            }
            Some("6")
        },
        '˙' => {
            proof {
                reveal_strlit("7");
            }
            Some("7")
        },
        'ㄚ' => {
            proof {
                reveal_strlit("8");
            }
            Some("8")
        },
        'ㄞ' => {
            proof {
                reveal_strlit("9");
            }
            Some("9")
        },
        'ㄢ' => {
            proof {
                reveal_strlit("0");
            }
            Some("0")
        },
        'ㄦ' => {
            proof {
                reveal_strlit("-");
            }
            Some("-")
        },
        'ㄆ' => {
            proof {
                reveal_strlit("q");
            }
            Some("q")
        },
        'ㄊ' => {
            proof {
                reveal_strlit("w");
            }
            Some("w")
        },
        'ㄍ' => {
            proof {
                reveal_strlit("e");
            }
            Some("e")
        },
        'ㄐ' => {
            proof {
                reveal_strlit("r");
            }
            Some("r")
        },
        'ㄔ' => {
            proof {
                reveal_strlit("t");
            }
            Some("t")
        },
        'ㄗ' => {
            proof {
                reveal_strlit("y");
            }
            Some("y")
        },
        'ㄧ' => {
            proof {
                reveal_strlit("u");
            }
            Some("u")
        },
        'ㄛ' => {
            proof {
                reveal_strlit("i");
            }
            Some("i")
        },
        'ㄟ' => {
            proof {
                reveal_strlit("o");
            }
            Some("o")
        },
        'ㄣ' => {
            proof {
                reveal_strlit("p");
            }
            Some("p")
        },
        '_' => {
            proof {
                reveal_strlit("");
            }
            Some("")
        },
        'ㄇ' => {
            proof {
                reveal_strlit("a");
            }
            Some("a")
        },
        'ㄋ' => {
            proof {
                reveal_strlit("s");
            }
            Some("s")
        },
        'ㄎ' => {
            proof {
                reveal_strlit("d");
            }
            Some("d")
        },
        'ㄑ' => {
            proof {
                reveal_strlit("f");
            }
            Some("f")
        },
        'ㄕ' => {
            proof {
                reveal_strlit("g");
            }
            Some("g")
        },
        'ㄘ' => {
            proof {
                reveal_strlit("h");
            }
            Some("h")
        },
        'ㄨ' => {
            proof {
                reveal_strlit("j");
            }
            Some("j")
        },
        'ㄜ' => {
            proof {
                reveal_strlit("k");
            }
            Some("k")
        },
        'ㄠ' => {
            proof {
                reveal_strlit("l");
            }
            Some("l")
        },
        'ㄤ' => {
            proof {
                reveal_strlit(";");
            }
            Some(";")
        },
        'ㄈ' => {
            proof {
                reveal_strlit("z");
            }
            Some("z")
        },
        'ㄌ' => {
            proof {
                reveal_strlit("x");
            }
            Some("x")
        },
        'ㄏ' => {
            proof {
                reveal_strlit("c");
            }
            Some("c")
        },
        'ㄒ' => {
            proof {
                reveal_strlit("v");
            }
            Some("v")
        },
        'ㄖ' => {
            proof {
                reveal_strlit("b");
            }
            Some("b")
        },
        'ㄙ' => {
            proof {
                reveal_strlit("n");
            }
            Some("n")
        },
        'ㄩ' => {
            proof {
                reveal_strlit("m");
            }
            Some("m")
        },
        'ㄝ' => {
            proof {
                reveal_strlit(",");
            }
            Some(",")
        },
        'ㄡ' => {
            proof {
                reveal_strlit(".");
            }
            Some(".")
        },
        'ㄥ' => {
            proof {
                reveal_strlit("/");
            }
            Some("/")
        },
        _ => None,
    }
}

/// Looks up a whole key payload in the table.
pub fn lookup_key(payload: &str) -> (r: Option<&'static str>)
    ensures
        r is Some <==> key_code(payload@) is Some,
        r matches Some(code) ==> code@ == key_code(payload@)->0,
{
    if payload.unicode_len() == 1 {
        code_for_symbol(payload.get_char(0))
    } else {
        None
    }
}

/// The key sequence to apply for a key payload: the mapped code of a known
/// symbol, or the payload unchanged.
pub fn translate_key<'a>(payload: &'a str) -> (r: &'a str)
    ensures
        r@ == translated(payload@),
{
    match lookup_key(payload) {
        Some(code) => code,
        None => payload,
    }
}

/// No code of the table is itself a symbol, so a symbol and its code stand
/// for the same key sequence.
pub proof fn lemma_symbol_and_code_agree(s: Seq<char>)
    requires
        key_code(s) is Some,
    ensures
        translated(s) == translated(key_code(s)->0),
{
    let code = key_code(s)->0;
    assert(code.len() <= 1);
    if code.len() == 1 {
        assert(symbol_code(code[0]) is None);
    }
}

/// The `_` symbol, like the empty payload, stands for the empty key sequence.
pub proof fn lemma_underscore_is_empty_key()
    ensures
        translated(seq!['_']) == Seq::<char>::empty(),
        translated(Seq::<char>::empty()) == Seq::<char>::empty(),
{
    assert(seq!['_'][0] == '_');
    assert(translated(seq!['_']) =~= Seq::<char>::empty());
}

} // verus!
