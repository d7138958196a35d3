//! The page composer: builds the index and detail documents from entries,
//! README markup and the visit aggregate, with a shared footer. Every
//! interpolated value except the README's converted markup is HTML-escaped.

use crate::errors::{
    readme_error_text, scan_error_text, store_error_text, AppError, ReadmeReadError, ScanError,
    StoreError,
};
use crate::readme::{readme_markup, render_readme, ReadmeOutcome, ReadmeSource};
use crate::scan::{
    entries_model, scan, scan_model, some_child_unreadable, DirListing, EntryModel,
    RepositoryEntry,
};
use crate::text::{append_str, dec_str, escaped, html_escape, u64_to_string};
use crate::visits::VisitAggregate;
use vstd::prelude::*;

verus! {

/// The fallback block shown when a repository has no README.
pub open spec fn fallback_html() -> Seq<char> {
    "<div><p>No readme</p></div>"@
}

/// The fallback block, as markup.
pub fn readme_fallback() -> (r: String)
    ensures
        r@ == fallback_html(),
{
    "<div><p>No readme</p></div>".to_owned()
}

/// The markup a readme outcome contributes to the detail page: the converted
/// README, or the fallback block.
pub open spec fn readme_block_of(o: ReadmeOutcome) -> Seq<char> {
    match o {
        ReadmeOutcome::Markup(m) => m@,
        ReadmeOutcome::NotFound => fallback_html(),
    }
}

/// The text of an optional borrowed text.
pub open spec fn opt_text(o: Option<&str>) -> Option<Seq<char>> {
    match o {
        Some(t) => Some(t@),
        None => None,
    }
}

/// The shared footer: the formatted last visit (or the explicit placeholder
/// when no visit exists yet) and the total count, both escaped.
pub open spec fn footer_html(visits: int, last: Option<Seq<char>>) -> Seq<char> {
    "<footer><div class=\"spacer\"></div><div class=\"split\"><aside><p>Last visited: <span class=\"faded\">"@
        + (match last {
        Some(t) => escaped(t),
        None => "never"@,
    })
        + "</span></p><p>Total visits: <span class=\"faded\">"@ + dec_str(visits)
        + "</span></p></aside><aside><a href=\"https://github.com/vincent-uden/git-viewer\"><img src=\"github-mark-white.svg\"></a></aside></div></footer>"@
}

/// One repository card on the index page: a link to the repository's detail
/// page, its name and its path, all escaped.
pub open spec fn card_html(e: EntryModel) -> Seq<char> {
    "<a href=\"/repo/"@ + escaped(e.name) + "\"><div class=\"repo-card\"><h3>"@ + escaped(e.name)
        + "</h3><p>"@ + escaped(e.path) + "</p></div></a>"@
}

/// The repository cards, in entry order.
pub open spec fn cards_html(es: Seq<EntryModel>) -> Seq<char>
    decreases es.len(),
{
    if es.len() == 0 {
        Seq::empty()
    } else {
        cards_html(es.drop_last()) + card_html(es.last())
    }
}

/// The whole index document.
pub open spec fn index_html(entries: Seq<EntryModel>, visits: int, last: Option<Seq<char>>) -> Seq<
    char,
> {
    "<!DOCTYPE html><link rel=\"stylesheet\" href=\"style.css\"><main><a href=\"/\"><h1>Git Registry</h1></a><div class=\"repo-list\">"@
        + cards_html(entries) + "</div>"@ + footer_html(visits, last) + "</main>"@
}

/// The whole detail document: the repository's name in the title, the clone
/// command built from the configured prefix and the name, the README block,
/// and the footer. Only the README block is embedded unescaped.
pub open spec fn detail_html(
    name: Seq<char>,
    prefix: Seq<char>,
    block: Seq<char>,
    visits: int,
    last: Option<Seq<char>>,
) -> Seq<char> {
    "<!DOCTYPE html><link rel=\"stylesheet\" href=\"/style.css\"><main><a href=\"/\"><h1>Git Registry</h1></a><h2>"@
        + escaped(name) + "</h2><p>Clone the repo</p><pre>git clone "@ + escaped(prefix) + escaped(
        name,
    ) + "</pre><h2>Readme</h2>"@ + block + footer_html(visits, last) + "</main>"@
}

/// Builds the shared footer.
pub fn footer(visits: u64, last_visit: Option<&str>) -> (r: String)
    ensures
        r@ == footer_html(visits as int, opt_text(last_visit)),
{
    let mut out = String::new();
    append_str(
        &mut out,
        "<footer><div class=\"spacer\"></div><div class=\"split\"><aside><p>Last visited: <span class=\"faded\">",
    );
    match last_visit {
        Some(t) => {
            let e = html_escape(t);
            append_str(&mut out, e.as_str());
        },
        None => {
            append_str(&mut out, "never");
        },
    }
    append_str(&mut out, "</span></p><p>Total visits: <span class=\"faded\">");
    let count = u64_to_string(visits);
    append_str(&mut out, count.as_str());
    append_str(
        &mut out,
        "</span></p></aside><aside><a href=\"https://github.com/vincent-uden/git-viewer\"><img src=\"github-mark-white.svg\"></a></aside></div></footer>",
    );
    proof {
        assert(out@ =~= footer_html(visits as int, opt_text(last_visit)));
    }
    out
}

/// Builds one repository card.
pub fn repo_card(entry: &RepositoryEntry) -> (r: String)
    ensures
        r@ == card_html(entry.model()),
{
    let name = html_escape(entry.name.as_str());
    let path = html_escape(entry.path.as_str());
    let mut out = String::new();
    append_str(&mut out, "<a href=\"/repo/");
    append_str(&mut out, name.as_str());
    append_str(&mut out, "\"><div class=\"repo-card\"><h3>");
    append_str(&mut out, name.as_str());
    append_str(&mut out, "</h3><p>");
    append_str(&mut out, path.as_str());
    append_str(&mut out, "</p></div></a>");
    proof {
        assert(out@ =~= card_html(entry.model()));
    }
    out
}

/// Builds the index document from the given entries, count and formatted
/// last-visit text.
pub fn render_index_doc(
    entries: &Vec<RepositoryEntry>,
    visits: u64,
    last_visit: Option<&str>,
) -> (r: String)
    ensures
        r@ == index_html(entries_model(entries@), visits as int, opt_text(last_visit)),
{
    let mut out = String::new();
    append_str(
        &mut out,
        "<!DOCTYPE html><link rel=\"stylesheet\" href=\"style.css\"><main><a href=\"/\"><h1>Git Registry</h1></a><div class=\"repo-list\">",
    );
    let ghost head: Seq<char> = out@;
    let mut i: usize = 0;
    proof {
        assert(cards_html(entries_model(entries@).take(0)) =~= Seq::<char>::empty());
        assert(out@ =~= head + cards_html(entries_model(entries@).take(0)));
    }
    while i < entries.len()
        invariant
            i <= entries.len(),
            out@ == head + cards_html(entries_model(entries@).take(i as int)),
        decreases entries.len() - i,
    {
        let card = repo_card(&entries[i]);
        append_str(&mut out, card.as_str());
        proof {
            let em = entries_model(entries@);
            assert(em[i as int] == entries@[i as int].model());
            assert(em.take(i + 1).drop_last() =~= em.take(i as int));
            assert(em.take(i + 1).last() == em[i as int]);
            assert(out@ =~= head + cards_html(em.take(i + 1)));
        }
        i += 1;
    }
    proof {
        let em = entries_model(entries@);
        assert(em.take(em.len() as int) =~= em);
    }
    append_str(&mut out, "</div>");
    let f = footer(visits, last_visit);
    append_str(&mut out, f.as_str());
    append_str(&mut out, "</main>");
    proof {
        assert(out@ =~= index_html(entries_model(entries@), visits as int, opt_text(last_visit)));
    }
    out
}

/// Builds the detail document from the given name, clone prefix, readme
/// outcome, count and formatted last-visit text.
pub fn render_detail_doc(
    name: &str,
    clone_url_prefix: &str,
    readme: &ReadmeOutcome,
    visits: u64,
    last_visit: Option<&str>,
) -> (r: String)
    ensures
        r@ == detail_html(
            name@,
            clone_url_prefix@,
            readme_block_of(*readme),
            visits as int,
            opt_text(last_visit),
        ),
{
    let ename = html_escape(name);
    let eprefix = html_escape(clone_url_prefix);
    let mut out = String::new();
    append_str(
        &mut out,
        "<!DOCTYPE html><link rel=\"stylesheet\" href=\"/style.css\"><main><a href=\"/\"><h1>Git Registry</h1></a><h2>",
    );
    append_str(&mut out, ename.as_str());
    append_str(&mut out, "</h2><p>Clone the repo</p><pre>git clone ");
    append_str(&mut out, eprefix.as_str());
    append_str(&mut out, ename.as_str());
    append_str(&mut out, "</pre><h2>Readme</h2>");
    match readme {
        ReadmeOutcome::Markup(m) => {
            append_str(&mut out, m.as_str());
        },
        ReadmeOutcome::NotFound => {
            append_str(&mut out, "<div><p>No readme</p></div>");
        },
    }
    let f = footer(visits, last_visit);
    append_str(&mut out, f.as_str());
    append_str(&mut out, "</main>");
    proof {
        assert(out@ =~= detail_html(
            name@,
            clone_url_prefix@,
            readme_block_of(*readme),
            visits as int,
            opt_text(last_visit),
        ));
    }
    out
}

/// Relies on chrono: the timestamp taken to the machine's local time zone and
/// written as day/month/year hour:minute (a timestamp outside chrono's range
/// falls back to the epoch). The result depends on the machine's time zone
/// database, so nothing further is assumed of it.
#[verifier::external_body]
fn local_datetime_text(millis: i64) -> (r: String) {
    let utc = chrono::DateTime::from_timestamp_millis(millis).unwrap_or_default();
    let local: chrono::DateTime<chrono::Local> = chrono::DateTime::from(utc);
    format!("{}", local.format("%d/%m/%Y %H:%M"))
}

/// Builds the index document for an aggregate: an absent last visit renders
/// the placeholder; a present one renders as some formatted text, machine
/// local time, in the footer position.
pub fn render_index(entries: &Vec<RepositoryEntry>, agg: &VisitAggregate) -> (r: String)
    ensures
        agg.latest_timestamp is None ==> r@ == index_html(
            entries_model(entries@),
            agg.total_count as int,
            None,
        ),
        agg.latest_timestamp is Some ==> exists|ts: Seq<char>|
            r@ == index_html(entries_model(entries@), agg.total_count as int, Some(ts)),
{
    match agg.latest_timestamp {
        None => render_index_doc(entries, agg.total_count, None),
        Some(t) => {
            let txt = local_datetime_text(t);
            let r = render_index_doc(entries, agg.total_count, Some(txt.as_str()));
            proof {
                assert(r@ == index_html(
                    entries_model(entries@),
                    agg.total_count as int,
                    Some(txt@),
                ));
            }
            r
        },
    }
}

/// Builds the detail document for an aggregate, as `render_index` does.
pub fn render_detail(
    name: &str,
    clone_url_prefix: &str,
    readme: &ReadmeOutcome,
    agg: &VisitAggregate,
) -> (r: String)
    ensures
        agg.latest_timestamp is None ==> r@ == detail_html(
            name@,
            clone_url_prefix@,
            readme_block_of(*readme),
            agg.total_count as int,
            None,
        ),
        agg.latest_timestamp is Some ==> exists|ts: Seq<char>|
            r@ == detail_html(
                name@,
                clone_url_prefix@,
                readme_block_of(*readme),
                agg.total_count as int,
                Some(ts),
            ),
{
    match agg.latest_timestamp {
        None => render_detail_doc(name, clone_url_prefix, readme, agg.total_count, None),
        Some(t) => {
            let txt = local_datetime_text(t);
            let r = render_detail_doc(
                name,
                clone_url_prefix,
                readme,
                agg.total_count,
                Some(txt.as_str()),
            );
            proof {
                assert(r@ == detail_html(
                    name@,
                    clone_url_prefix@,
                    readme_block_of(*readme),
                    agg.total_count as int,
                    Some(txt@),
                ));
            }
            r
        },
    }
}

/// Whether a result is the index page for the given entries and aggregate.
pub open spec fn index_ok(
    r: Result<String, AppError>,
    entries: Seq<EntryModel>,
    agg: VisitAggregate,
) -> bool {
    &&& r is Ok
    &&& (agg.latest_timestamp is None ==> r->Ok_0@ == index_html(
        entries,
        agg.total_count as int,
        None,
    ))
    &&& (agg.latest_timestamp is Some ==> exists|ts: Seq<char>|
        r->Ok_0@ == index_html(entries, agg.total_count as int, Some(ts)))
}

/// The index page: scans the root's listing and composes the document; a
/// failed scan is the page-level error that carries its text.
pub fn index(listing: &DirListing, agg: &VisitAggregate) -> (r: Result<String, AppError>)
    ensures
        match *listing {
            DirListing::Missing => r matches Err(e) && e.detail@ == scan_error_text(
                ScanError::RootMissing,
            ),
            DirListing::NotDirectory => r matches Err(e) && e.detail@ == scan_error_text(
                ScanError::RootNotDirectory,
            ),
            DirListing::Unreadable => r matches Err(e) && e.detail@ == scan_error_text(
                ScanError::RootUnreadable,
            ),
            DirListing::Entries(cs) => {
                if some_child_unreadable(cs@) {
                    r matches Err(e) && e.detail@ == scan_error_text(ScanError::ChildUnreadable)
                } else {
                    index_ok(r, scan_model(cs@), *agg)
                }
            },
        },
{
    match scan(listing) {
        Err(e) => Err(AppError::from_scan(&e)),
        Ok(entries) => {
            let doc = render_index(&entries, agg);
            Ok(doc)
        },
    }
}

/// Whether a result is the detail page for the given parts and aggregate.
pub open spec fn detail_ok(
    r: Result<String, AppError>,
    name: Seq<char>,
    prefix: Seq<char>,
    block: Seq<char>,
    agg: VisitAggregate,
) -> bool {
    &&& r is Ok
    &&& (agg.latest_timestamp is None ==> r->Ok_0@ == detail_html(
        name,
        prefix,
        block,
        agg.total_count as int,
        None,
    ))
    &&& (agg.latest_timestamp is Some ==> exists|ts: Seq<char>|
        r->Ok_0@ == detail_html(name, prefix, block, agg.total_count as int, Some(ts)))
}

/// The detail page: renders the README (an absent one becomes the fallback
/// block — also when the repository directory itself does not exist, which is
/// not validated separately) and composes the document; an unreadable README
/// is the page-level error that carries its text.
pub fn repo(
    name: &str,
    clone_url_prefix: &str,
    source: &ReadmeSource,
    agg: &VisitAggregate,
) -> (r: Result<String, AppError>)
    ensures
        match *source {
            ReadmeSource::Unreadable => r matches Err(e) && e.detail@ == readme_error_text(
                ReadmeReadError::Unreadable,
            ),
            ReadmeSource::Absent => detail_ok(r, name@, clone_url_prefix@, fallback_html(), *agg),
            ReadmeSource::Content(s) => detail_ok(
                r,
                name@,
                clone_url_prefix@,
                readme_markup(s@),
                *agg,
            ),
        },
{
    match render_readme(source) {
        Err(e) => Err(AppError::from_readme(&e)),
        Ok(outcome) => {
            let doc = render_detail(name, clone_url_prefix, &outcome, agg);
            Ok(doc)
        },
    }
}

/// The telemetry policy: a visit that could not be recorded fails the whole
/// response with the page-level error that carries the store failure's text
/// (fail-fast, the behaviour this design chooses and tests).
pub fn visit_gate(recorded: Result<(), StoreError>) -> (r: Result<(), AppError>)
    ensures
        recorded is Ok ==> r is Ok,
        recorded matches Err(e) ==> r matches Err(a) && a.detail@ == store_error_text(e),
{
    match recorded {
        Ok(()) => Ok(()),
        Err(e) => Err(AppError::from_store(&e)),
    }
}

} // verus!
