use vstd::prelude::*;
use vstd::string::StringExecFns;

verus! {

/// Options of `http`.
pub struct HttpOpts {
    pub cmd: HttpSubCommand,
}

/// The `http` commands.
pub enum HttpSubCommand {
    Serve(HttpServeOpts),
}

/// Options of `http serve`.
pub struct HttpServeOpts {
    /// The directory to serve.
    pub dir: String,
    pub port: u16,
}

/// One entry of a directory listing: a link to `/<path>` labelled `name`.
pub open spec fn listing_entry(path: Seq<char>, name: Seq<char>) -> Seq<char> {
    "<li><a href=\"/"@ + path + "\">"@ + name + "</a></li>"@
}

/// The entries of a directory listing, in order.
pub open spec fn listing_entries(entries: Seq<(Seq<char>, Seq<char>)>) -> Seq<char>
    decreases entries.len(),
{
    if entries.len() == 0 {
        Seq::empty()
    } else {
        listing_entries(entries.drop_last()) + listing_entry(entries.last().0, entries.last().1)
    }
}

/// The (path, name) pairs of a listing as character sequences.
pub open spec fn entry_views(entries: Seq<(String, String)>) -> Seq<(Seq<char>, Seq<char>)> {
    entries.map_values(|e: (String, String)| (e.0@, e.1@))
}

/// The HTML list of a directory's entries, each given by its path and its
/// name.
pub fn directory_listing(entries: &Vec<(String, String)>) -> (r: String)
    ensures
        r@ == "<ul>"@ + listing_entries(entry_views(entries@)) + "</ul>"@,
{
    let mut content = String::from_str("<ul>");
    let n = entries.len();
    for i in 0..n
        invariant
            n == entries@.len(),
            content@ == "<ul>"@ + listing_entries(entry_views(entries@.subrange(0, i as int))),
    {
        let (path, name) = &entries[i];
        content.append("<li><a href=\"/");
        content.append(path.as_str());
        content.append("\">");
        content.append(name.as_str());
        content.append("</a></li>");
        proof {
            let before = entry_views(entries@.subrange(0, i as int));
            let after = entry_views(entries@.subrange(0, i + 1));
            assert(after.drop_last() =~= before);
            assert(after.last() == (path@, name@));
        }
    }
    assert(entries@.subrange(0, n as int) =~= entries@);
    content.append("</ul>");
    content
}

} // verus!
