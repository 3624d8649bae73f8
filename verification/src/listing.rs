//! Directory listings: an HTML index with one link per immediate child, and
//! the round-trip law that every rendered link resolves back to the child it
//! names.

use vstd::prelude::*;

use crate::encoding::{encode_href, percent_decoded, percent_encoded};
use crate::paths::{contains_path, join_under_root, strip_leading_seps};
use crate::scan::find_non_sep;

verus! {

/// The root-relative path of a child entry: the directory's root-relative
/// path, a separator, then the entry's name.
pub open spec fn child_rel(dir_rel: Seq<char>, name: Seq<char>) -> Seq<char> {
    dir_rel + seq!['/'] + name
}

/// One listing line: a link whose target is the percent-encoded
/// root-relative path of the child and whose visible text is the raw name.
pub open spec fn li_entry(dir_rel: Seq<char>, name: Seq<char>) -> Seq<char> {
    "<li><a href=\""@ + percent_encoded(child_rel(dir_rel, name)) + "\">"@ + name + "</a></li>"@
}

/// All listing lines, in enumeration order.
pub open spec fn listing_items(dir_rel: Seq<char>, names: Seq<Seq<char>>) -> Seq<char>
    decreases names.len(),
{
    if names.len() == 0 {
        Seq::empty()
    } else {
        listing_items(dir_rel, names.drop_last()) + li_entry(dir_rel, names.last())
    }
}

/// The full listing page: a fixed HTML skeleton around the lines.
pub open spec fn listing_page(dir_rel: Seq<char>, names: Seq<Seq<char>>) -> Seq<char> {
    "<html><head><title>Directory Listing</title></head><body><h1>Directory Listing</h1><ul>"@
        + listing_items(dir_rel, names) + "</ul></body></html>"@
}

/// Render the HTML index of a directory: one link per immediate child, in
/// the order given. `dir_rel` is the directory's root-relative path and
/// `names` are its children's names, as the filesystem enumerated them.
pub fn generate_directory_listing(dir_rel: &str, names: &Vec<String>) -> (html: String)
    ensures
        html@ == listing_page(dir_rel@, names.deep_view()),
{
    let ghost nv = names.deep_view();
    let mut html = String::from_str(
        "<html><head><title>Directory Listing</title></head><body><h1>Directory Listing</h1><ul>",
    );
    let n = names.len();
    let mut i: usize = 0;
    while i < n
        invariant
            n == names@.len(),
            nv == names.deep_view(),
            i <= n,
            html@
                == "<html><head><title>Directory Listing</title></head><body><h1>Directory Listing</h1><ul>"@
                + listing_items(dir_rel@, nv.take(i as int)),
        decreases n - i,
    {
        let mut child = dir_rel.to_owned();
        child.append("/");
        child.append(names[i].as_str());
        proof {
            reveal_strlit("/");
            assert(child@ =~= child_rel(dir_rel@, nv[i as int]));
        }
        let enc = encode_href(child.as_str());
        html.append("<li><a href=\"");
        html.append(enc.as_str());
        html.append("\">");
        html.append(names[i].as_str());
        html.append("</a></li>");
        proof {
            assert(nv.take(i + 1).drop_last() =~= nv.take(i as int));
            assert(nv.take(i + 1).last() == nv[i as int]);
            assert(html@ =~= "<html><head><title>Directory Listing</title></head><body><h1>Directory Listing</h1><ul>"@
                + listing_items(dir_rel@, nv.take(i + 1)));
        }
        i += 1;
    }
    html.append("</ul></body></html>");
    proof {
        assert(nv.take(n as int) =~= nv);
    }
    html
}

/// Law: directory-listing links round-trip. `enc` stands for a rendered
/// href: decoding it gives back the child's root-relative path, which is
/// what `encode_href` guarantees of every href the listing renders. Taking
/// `enc` as a request target and joining it under the root then yields
/// exactly that child's path, and that path passes the containment check.
pub proof fn lemma_listing_link_round_trip(
    root: Seq<char>,
    dir_rel: Seq<char>,
    name: Seq<char>,
    enc: Seq<char>,
)
    requires
        percent_decoded(enc) == child_rel(dir_rel, name),
        dir_rel.len() == 0 ==> name.len() > 0 && name[0] != '/',
        dir_rel.len() > 0 ==> dir_rel.len() >= 2 && dir_rel[0] == '/' && dir_rel[1] != '/',
    ensures
        join_under_root(root, percent_decoded(enc)) == root + child_rel(dir_rel, name),
        contains_path(root, join_under_root(root, percent_decoded(enc))),
{
    let cr = child_rel(dir_rel, name);
    assert(cr[0] == '/');
    assert(cr[1] != '/');
    assert(find_non_sep(cr, 0) == find_non_sep(cr, 1));
    assert(find_non_sep(cr, 1) == 1);
    assert(strip_leading_seps(cr) =~= cr.subrange(1, cr.len() as int));
    assert(root + seq!['/'] + cr.subrange(1, cr.len() as int) =~= root + cr);
    let joined = root + cr;
    assert(joined.subrange(0, root.len() as int) =~= root);
    assert(joined[root.len() as int] == '/');
}

} // verus!
