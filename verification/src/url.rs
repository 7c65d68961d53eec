//! URL normalization: the one format-to-format rewrite applied before
//! fetching.
//!
//! A URL that ends in `.webp` has every occurrence of that substring
//! rewritten to `.gif` — a blind substring replacement, deliberately not
//! extension-aware, matching the leftmost occurrence first and never
//! rescanning what it produced.  A URL without that suffix passes through
//! unchanged.

use crate::strings::{chars_to_string, string_to_chars};
use vstd::prelude::*;

verus! {

/// The characters of the suffix that triggers rewriting: `.webp`.
pub open spec fn webp_suffix() -> Seq<char> {
    seq!['.', 'w', 'e', 'b', 'p']
}

/// The characters every occurrence is replaced with: `.gif`.
pub open spec fn gif_suffix() -> Seq<char> {
    seq!['.', 'g', 'i', 'f']
}

/// Left-to-right, non-overlapping replacement of every `.webp` by `.gif`.
pub open spec fn replace_webp(s: Seq<char>) -> Seq<char>
    decreases s.len(),
{
    if s.len() < 5 {
        s
    } else if s.subrange(0, 5) == webp_suffix() {
        gif_suffix() + replace_webp(s.skip(5))
    } else {
        seq![s[0]] + replace_webp(s.skip(1))
    }
}

/// The rewrite applies only to a URL that ends in `.webp`; everything else
/// passes through unchanged.
pub open spec fn spec_normalize_url(s: Seq<char>) -> Seq<char> {
    if s.len() >= 5 && s.subrange(s.len() - 5, s.len() as int) == webp_suffix() {
        replace_webp(s)
    } else {
        s
    }
}

/// Rewrites a `.webp` URL to its `.gif` counterpart before fetching.
pub fn normalize_url(url: &String) -> (r: String)
    ensures
        r@ == spec_normalize_url(url@),
{
    let cs = string_to_chars(url.as_str());
    let n = cs.len();
    let ends_webp = n >= 5 && cs[n - 5] == '.' && cs[n - 4] == 'w' && cs[n - 3] == 'e' && cs[n
        - 2] == 'b' && cs[n - 1] == 'p';
    proof {
        if n >= 5 {
            let tail = cs@.subrange(n - 5, n as int);
            assert(tail[0] == cs@[n - 5] && tail[1] == cs@[n - 4] && tail[2] == cs@[n - 3]
                && tail[3] == cs@[n - 2] && tail[4] == cs@[n - 1]);
            if ends_webp {
                assert(tail =~= webp_suffix());
            }
        }
    }
    if !ends_webp {
        return url.clone();
    }
    let mut out: Vec<char> = Vec::new();
    let mut i: usize = 0;
    proof {
        assert(cs@.skip(0) =~= cs@);
    }
    while i < n
        invariant
            i <= n,
            n == cs@.len(),
            out@ + replace_webp(cs@.skip(i as int)) == replace_webp(cs@),
        decreases n - i,
    {
        let window_webp = n - i >= 5 && cs[i] == '.' && cs[i + 1] == 'w' && cs[i + 2] == 'e'
            && cs[i + 3] == 'b' && cs[i + 4] == 'p';
        proof {
            let rest = cs@.skip(i as int);
            if i + 5 <= n {
                let w = rest.subrange(0, 5);
                assert(w[0] == cs@[i as int] && w[1] == cs@[i + 1] && w[2] == cs@[i + 2] && w[3]
                    == cs@[i + 3] && w[4] == cs@[i + 4]);
                if window_webp {
                    assert(w =~= webp_suffix());
                }
            }
        }
        let ghost out_old = out@;
        if window_webp {
            out.push('.');
            out.push('g');
            out.push('i');
            out.push('f');
            proof {
                let rest = cs@.skip(i as int);
                assert(replace_webp(rest) == gif_suffix() + replace_webp(rest.skip(5)));
                assert(rest.skip(5) =~= cs@.skip(i + 5));
                assert(out@ =~= out_old + gif_suffix());
                assert(out@ + replace_webp(cs@.skip(i + 5)) =~= out_old + replace_webp(rest));
            }
            i = i + 5;
        } else {
            out.push(cs[i]);
            proof {
                let rest = cs@.skip(i as int);
                assert(rest[0] == cs@[i as int]);
                if rest.len() < 5 {
                    assert(replace_webp(rest) == rest);
                    assert(replace_webp(rest.skip(1)) == rest.skip(1));
                    assert(rest =~= seq![rest[0]] + rest.skip(1));
                }
                assert(replace_webp(rest) == seq![rest[0]] + replace_webp(rest.skip(1)));
                assert(rest.skip(1) =~= cs@.skip(i + 1));
                assert(out@ =~= out_old + seq![cs@[i as int]]);
                assert(out@ + replace_webp(cs@.skip(i + 1)) =~= out_old + replace_webp(rest));
            }
            i = i + 1;
        }
    }
    proof {
        assert(cs@.skip(n as int) =~= Seq::<char>::empty());
        assert(out@ =~= out@ + replace_webp(cs@.skip(n as int)));
    }
    chars_to_string(&out)
}

} // verus!
