//! Named colour gradients for the spectrogram display.
use vstd::prelude::*;
use vstd::string::StrSliceExecFns;

verus! {

/// A colour gradient and the name it is looked up by. In a list of gradients
/// a name is meant to occur once; where it occurs more than once, the first
/// occurrence is the one that lookups find.
pub struct ColorMap<T> {
    pub name: String,
    pub colors: Vec<T>,
}

/// `name` asks for a reversed gradient: it ends in `_r`.
pub open spec fn asks_reversed(name: Seq<char>) -> bool {
    name.len() >= 2 && name[name.len() - 2] == '_' && name[name.len() - 1] == 'r'
}

/// The gradient name that `name` looks up, without a trailing `_r`.
pub open spec fn base_name(name: Seq<char>) -> Seq<char> {
    if asks_reversed(name) {
        name.subrange(0, name.len() - 2)
    } else {
        name
    }
}

/// Index of the first of `maps` named `name`, if any.
pub open spec fn first_named<T>(maps: Seq<ColorMap<T>>, name: Seq<char>) -> Option<int> {
    if exists|i: int| 0 <= i < maps.len() && (#[trigger] maps[i]).name@ == name {
        Some(
            choose|i: int|
                0 <= i < maps.len() && (#[trigger] maps[i]).name@ == name && forall|k: int|
                    0 <= k < i ==> (#[trigger] maps[k]).name@ != name,
        )
    } else {
        None
    }
}

pub open spec fn reversed<T>(s: Seq<T>) -> Seq<T> {
    Seq::new(s.len(), |i: int| s[s.len() - 1 - i])
}

/// The gradient that `name` selects from `maps`: the first one with its base
/// name, reversed when `name` ends in `_r`; `[fallback]` when none has it.
pub open spec fn color_map_of<T>(maps: Seq<ColorMap<T>>, name: Seq<char>, fallback: T) -> Seq<T> {
    match first_named(maps, base_name(name)) {
        Some(i) => if asks_reversed(name) {
            reversed(maps[i].colors@)
        } else {
            maps[i].colors@
        },
        None => seq![fallback],
    }
}

fn same_name(candidate: &str, name: &str, len: usize) -> (r: bool)
    requires
        len <= name@.len(),
    ensures
        r == (candidate@ == name@.subrange(0, len as int)),
{
    if candidate.unicode_len() != len {
        return false;
    }
    let mut i: usize = 0;
    while i < len
        invariant
            len <= name@.len(),
            candidate@.len() == len,
            i <= len,
            forall|k: int| 0 <= k < i ==> candidate@[k] == name@[k],
        decreases len - i,
    {
        if candidate.get_char(i) != name.get_char(i) {
            assert(name@.subrange(0, len as int)[i as int] == name@[i as int]);
            return false;
        }
        i += 1;
    }
    assert(candidate@ =~= name@.subrange(0, len as int));
    true
}

/// Looks up a gradient by name; a name ending in `_r` gives the gradient
/// without that suffix, reversed. An unknown name gives `[fallback]`. The
/// first gradient with the name is taken, so a list built from several
/// sources gives the earlier source precedence.
pub fn get_color_map<T: Copy>(maps: &Vec<ColorMap<T>>, name: &str, fallback: T) -> (r: Vec<T>)
    ensures
        r@ == color_map_of(maps@, name@, fallback),
{
    let n = name.unicode_len();
    let reverse = n >= 2 && name.get_char(n - 2) == '_' && name.get_char(n - 1) == 'r';
    let len = if reverse {
        n - 2
    } else {
        n
    };
    assert(name@.subrange(0, len as int) == base_name(name@)) by {
        if !reverse {
            assert(name@.subrange(0, len as int) =~= name@);
        }
    }
    let mut i: usize = 0;
    while i < maps.len()
        invariant
            n == name@.len(),
            len <= n,
            reverse == asks_reversed(name@),
            name@.subrange(0, len as int) == base_name(name@),
            i <= maps@.len(),
            forall|k: int| 0 <= k < i ==> (#[trigger] maps@[k]).name@ != base_name(name@),
        decreases maps@.len() - i,
    {
        if same_name(maps[i].name.as_str(), name, len) {
            let colors = &maps[i].colors;
            let mut out: Vec<T> = Vec::new();
            let mut j: usize = 0;
            while j < colors.len()
                invariant
                    j <= colors@.len(),
                    out@.len() == j,
                    forall|k: int|
                        0 <= k < j ==> #[trigger] out@[k] == if reverse {
                            colors@[colors@.len() - 1 - k]
                        } else {
                            colors@[k]
                        },
                decreases colors@.len() - j,
            {
                if reverse {
                    out.push(colors[colors.len() - 1 - j]);
                } else {
                    out.push(colors[j]);
                }
                j += 1;
            }
            proof {
                let found = first_named(maps@, base_name(name@));
                assert(maps@[i as int].name@ == base_name(name@));
                assert(found is Some);
                let f = found->0;
                if f < i {
                    assert(maps@[f].name@ != base_name(name@));
                }
                if f > i {
                    assert(maps@[i as int].name@ != base_name(name@));
                }
                assert(f == i);
                if reverse {
                    assert(out@ =~= reversed(colors@));
                } else {
                    assert(out@ =~= colors@);
                }
            }
            return out;
        }
        i += 1;
    }
    let mut out: Vec<T> = Vec::new();
    out.push(fallback);
    assert(out@ =~= seq![fallback]);
    out
}

} // verus!
