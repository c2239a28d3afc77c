//! Ship capabilities: which ones the online modules provide, and how an
//! authored capability name reads on screen.

use crate::data::GameData;
use crate::engine::online;
use crate::session::GameSession;
use crate::text::views;
use crate::workspace_records::opt_view;
use vstd::prelude::*;
use vstd::string::StrSliceExecFns;

verus! {

/// Characters that separate words of a capability name.
pub open spec fn separator(c: char) -> bool {
    c == '_' || c == ' ' || c == '\t' || c == '\n' || c == '\r'
}

/// The capital of a lower-case ASCII letter; other characters unchanged.
pub open spec fn capital(c: char) -> char {
    if 'a' <= c && c <= 'z' {
        ((c as u32) - 32) as char
    } else {
        c
    }
}

/// Reads a name left to right: underscores and blanks split words, words are
/// joined by single spaces, and each word starts with a capital. Returns the
/// text so far, whether a word was written, and whether the last character
/// was inside a word.
pub open spec fn label_scan(s: Seq<char>) -> (Seq<char>, bool, bool)
    decreases s.len(),
{
    if s.len() == 0 {
        (Seq::empty(), false, false)
    } else {
        let (out, started, in_word) = label_scan(s.drop_last());
        let c = s.last();
        if separator(c) {
            (out, started, false)
        } else if in_word {
            (out.push(c), started, true)
        } else if started {
            (out.push(' ').push(capital(c)), true, true)
        } else {
            (out.push(capital(c)), true, true)
        }
    }
}

/// How a capability name reads on screen: `heavy_tractor` reads
/// `Heavy Tractor`.
pub open spec fn capability_label_spec(s: Seq<char>) -> Seq<char> {
    label_scan(s).0
}

fn capital_text(c: char) -> (r: &'static str)
    requires
        'a' <= c <= 'z',
    ensures
        r@ == seq![capital(c)],
{
    proof {
        reveal_strlit("A");
        reveal_strlit("B");
        reveal_strlit("C");
        reveal_strlit("D");
        reveal_strlit("E");
        reveal_strlit("F");
        reveal_strlit("G");
        reveal_strlit("H");
        reveal_strlit("I");
        reveal_strlit("J");
        reveal_strlit("K");
        reveal_strlit("L");
        reveal_strlit("M");
        reveal_strlit("N");
        reveal_strlit("O");
        reveal_strlit("P");
        reveal_strlit("Q");
        reveal_strlit("R");
        reveal_strlit("S");
        reveal_strlit("T");
        reveal_strlit("U");
        reveal_strlit("V");
        reveal_strlit("W");
        reveal_strlit("X");
        reveal_strlit("Y");
        reveal_strlit("Z");
    }
    match c {
        'a' => "A",
        'b' => "B",
        'c' => "C",
        'd' => "D",
        'e' => "E",
        'f' => "F",
        'g' => "G",
        'h' => "H",
        'i' => "I",
        'j' => "J",
        'k' => "K",
        'l' => "L",
        'm' => "M",
        'n' => "N",
        'o' => "O",
        'p' => "P",
        'q' => "Q",
        'r' => "R",
        's' => "S",
        't' => "T",
        'u' => "U",
        'v' => "V",
        'w' => "W",
        'x' => "X",
        'y' => "Y",
        _ => "Z",
    }
}

/// The on-screen reading of a capability name.
pub fn capability_label(value: &str) -> (r: String)
    ensures
        r@ == capability_label_spec(value@),
{
    let n = value.unicode_len();
    let mut out = String::new();
    let mut started = false;
    let mut in_word = false;
    let mut i: usize = 0;
    while i < n
        invariant
            i <= n,
            n == value@.len(),
            label_scan(value@.take(i as int)) == (out@, started, in_word),
        decreases n - i,
    {
        proof {
            assert(value@.take(i + 1).drop_last() =~= value@.take(i as int));
            assert(value@.take(i + 1).last() == value@[i as int]);
        }
        let c = value.get_char(i);
        if c == '_' || c == ' ' || c == '\t' || c == '\n' || c == '\r' {
            in_word = false;
        } else if in_word {
            let piece = value.substring_char(i, i + 1);
            proof {
                assert(piece@ =~= seq![c]);
            }
            let ghost before = out@;
            out.append(piece);
            proof {
                assert(out@ =~= before.push(c));
            }
        } else {
            let ghost before = out@;
            if started {
                proof {
                    reveal_strlit(" ");
                }
                out.append(" ");
            }
            let ghost mid = out@;
            if 'a' <= c && c <= 'z' {
                out.append(capital_text(c));
            } else {
                let piece = value.substring_char(i, i + 1);
                proof {
                    assert(piece@ =~= seq![c]);
                }
                out.append(piece);
            }
            proof {
                assert(out@ =~= mid.push(capital(c)));
                if started {
                    assert(mid =~= before.push(' '));
                }
            }
            started = true;
            in_word = true;
        }
        i = i + 1;
    }
    proof {
        assert(value@.take(n as int) =~= value@);
    }
    out
}

impl GameSession {
    /// Whether an online permanent module provides the capability.
    pub open spec fn capability_spec(&self, capability: Seq<char>, data: GameData) -> bool {
        exists|i: int|
            0 <= i < self.ship_layout.placements.len() && online(
                data,
                views(self.damaged_modules@),
                #[trigger] self.ship_layout.placements@[i],
            ) && opt_view(
                data.module_spec(self.ship_layout.placements@[i].id@).unwrap().capability,
            ) == Some(capability)
    }

    /// Whether an online permanent module provides the capability.
    pub fn has_capability(&self, capability: &str, data: &GameData) -> (r: bool)
        ensures
            r == self.capability_spec(capability@, *data),
    {
        let mut i: usize = 0;
        while i < self.ship_layout.placements.len()
            invariant
                i <= self.ship_layout.placements.len(),
                forall|j: int|
                    0 <= j < i ==> !(online(
                        *data,
                        views(self.damaged_modules@),
                        #[trigger] self.ship_layout.placements@[j],
                    ) && opt_view(
                        data.module_spec(self.ship_layout.placements@[j].id@).unwrap().capability,
                    ) == Some(capability@)),
            decreases self.ship_layout.placements.len() - i,
        {
            let item = &self.ship_layout.placements[i];
            if item.permanent && !crate::text::has_id(&self.damaged_modules, item.id.as_str()) {
                match data.module(item.id.as_str()) {
                    Some(m) => {
                        let provides = match &m.capability {
                            Some(c) => crate::text::same_text(c.as_str(), capability),
                            None => false,
                        };
                        if provides {
                            return true;
                        }
                    },
                    None => {},
                }
            }
            i = i + 1;
        }
        false
    }
}

} // verus!
