//! Request-line parsing: the requested target is the second
//! whitespace-separated token of the first line of the request.

use vstd::prelude::*;

use crate::scan::{find_nl, find_ws_boundary, is_request_ws, is_ws_char, lemma_find_nl,
    lemma_find_ws_boundary};

verus! {

/// The target a raw request asks for: the second whitespace-separated token
/// of the first line. A bare `/` means the root directory and becomes the
/// relative directory `.`; a line with fewer than two tokens falls back to
/// `/`.
pub open spec fn request_target(req: Seq<char>) -> Seq<char> {
    let line = req.take(find_nl(req, 0));
    let a = find_ws_boundary(line, 0, false);
    let b = find_ws_boundary(line, a, true);
    let c = find_ws_boundary(line, b, false);
    let d = find_ws_boundary(line, c, true);
    if a == line.len() || c == line.len() {
        seq!['/']
    } else if line.subrange(c, d) == seq!['/'] {
        seq!['.']
    } else {
        line.subrange(c, d)
    }
}

/// Extract the requested path from a raw request. Only the first line is
/// read, and only its second token; malformed or short request lines fall
/// back to the root target.
pub fn parse_request(request: &str) -> (r: String)
    ensures
        r@ == request_target(request@),
{
    let ghost req = request@;
    let n = request.unicode_len();

    let mut nl: usize = 0;
    while nl < n && request.get_char(nl) != '\n'
        invariant
            n == req.len(),
            req == request@,
            nl <= n,
            forall|j: int| 0 <= j < nl ==> req[j] != '\n',
        decreases n - nl,
    {
        nl += 1;
    }
    proof {
        lemma_find_nl(req, 0);
        assert(nl == find_nl(req, 0));
    }
    let ghost line = req.take(nl as int);
    assert(line.len() == nl);

    let mut a: usize = 0;
    while a < nl && is_ws_char(request.get_char(a))
        invariant
            n == req.len(),
            req == request@,
            nl <= n,
            line == req.take(nl as int),
            a <= nl,
            forall|j: int| 0 <= j < a ==> is_request_ws(line[j]),
        decreases nl - a,
    {
        proof {
            assert(line[a as int] == req[a as int]);
        }
        a += 1;
    }
    proof {
        lemma_find_ws_boundary(line, 0, false);
        if a < nl {
            assert(line[a as int] == req[a as int]);
        }
        assert(a == find_ws_boundary(line, 0, false));
    }

    let mut b: usize = a;
    while b < nl && !is_ws_char(request.get_char(b))
        invariant
            n == req.len(),
            req == request@,
            nl <= n,
            line == req.take(nl as int),
            a <= b <= nl,
            forall|j: int| a <= j < b ==> !is_request_ws(line[j]),
        decreases nl - b,
    {
        proof {
            assert(line[b as int] == req[b as int]);
        }
        b += 1;
    }
    proof {
        lemma_find_ws_boundary(line, a as int, true);
        if b < nl {
            assert(line[b as int] == req[b as int]);
        }
        assert(b == find_ws_boundary(line, a as int, true));
    }

    let mut c: usize = b;
    while c < nl && is_ws_char(request.get_char(c))
        invariant
            n == req.len(),
            req == request@,
            nl <= n,
            line == req.take(nl as int),
            b <= c <= nl,
            forall|j: int| b <= j < c ==> is_request_ws(line[j]),
        decreases nl - c,
    {
        proof {
            assert(line[c as int] == req[c as int]);
        }
        c += 1;
    }
    proof {
        lemma_find_ws_boundary(line, b as int, false);
        if c < nl {
            assert(line[c as int] == req[c as int]);
        }
        assert(c == find_ws_boundary(line, b as int, false));
    }

    let mut d: usize = c;
    while d < nl && !is_ws_char(request.get_char(d))
        invariant
            n == req.len(),
            req == request@,
            nl <= n,
            line == req.take(nl as int),
            c <= d <= nl,
            forall|j: int| c <= j < d ==> !is_request_ws(line[j]),
        decreases nl - d,
    {
        proof {
            assert(line[d as int] == req[d as int]);
        }
        d += 1;
    }
    proof {
        lemma_find_ws_boundary(line, c as int, true);
        if d < nl {
            assert(line[d as int] == req[d as int]);
        }
        assert(d == find_ws_boundary(line, c as int, true));
    }

    if a == nl || c == nl {
        let r = String::from_str("/");
        proof {
            reveal_strlit("/");
            assert(r@ =~= seq!['/']);
        }
        return r;
    }

    let t = request.substring_char(c, d);
    proof {
        assert(t@ =~= line.subrange(c as int, d as int));
    }
    if d - c == 1 && t.get_char(0) == '/' {
        let r = String::from_str(".");
        proof {
            reveal_strlit(".");
            assert(line.subrange(c as int, d as int) =~= seq!['/']);
            assert(r@ =~= seq!['.']);
        }
        return r;
    }
    proof {
        assert(line.subrange(c as int, d as int) != seq!['/']) by {
            if line.subrange(c as int, d as int) == seq!['/'] {
                assert(line.subrange(c as int, d as int).len() == 1);
                assert(line.subrange(c as int, d as int)[0] == '/');
            }
        };
    }
    t.to_owned()
}

} // verus!
