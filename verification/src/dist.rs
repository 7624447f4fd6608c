//! Platform-support checking against the runtime's published dist
//! index: the anchor targets are pulled out of the fetched page, and a
//! version is supported when some target names the wanted
//! version-os-architecture build.

use vstd::prelude::*;

use crate::error::SnmError;
use crate::strings::{
    spec_contains_sub, spec_starts_with, str_contains_sub, str_starts_with,
};

verus! {

/// The anchor targets of a dist index page: the first capture of each
/// anchor-tag match, in order. A function of the text alone.
pub uninterp spec fn href_targets(text: Seq<char>) -> Seq<Seq<char>>;

/// Relies on regex::Regex::captures_iter with the fixed anchor-tag
/// pattern: one capture per `<a href="…">…</a>` match, in order of
/// appearance, determined by the page text alone. Regex::new cannot
/// fail on this fixed pattern.
#[verifier::external_body]
fn extract_href_targets(text: &str) -> (r: Vec<String>)
    ensures
        r.deep_view() == href_targets(text@),
{
    let re = regex::Regex::new("<a\\s+href=\"([^\"]+)\">[^<]+</a>").unwrap();
    re.captures_iter(text).filter_map(|c| c.get(1).map(|m| m.as_str().to_string())).collect()
}

/// The scan the support check runs over the targets: stop with a
/// positive verdict at the first target that holds the wanted build
/// name; until then collect the targets that open with the version
/// prefix, as the list offered when nothing matches.
pub open spec fn spec_dist_scan(
    links: Seq<Seq<char>>,
    target: Seq<char>,
    prefix: Seq<char>,
) -> (bool, Seq<Seq<char>>)
    decreases links.len(),
{
    if links.len() == 0 {
        (false, Seq::empty())
    } else if spec_contains_sub(links[0], target) {
        (true, Seq::empty())
    } else {
        let rest = spec_dist_scan(links.drop_first(), target, prefix);
        (
            rest.0,
            (if spec_starts_with(links[0], prefix) {
                seq![links[0]]
            } else {
                Seq::<Seq<char>>::empty()
            }) + rest.1,
        )
    }
}

/// Runs the support scan over concrete targets.
pub fn check_supported_decision(links: &Vec<String>, target: &str, prefix: &str) -> (r: (
    bool,
    Vec<String>,
))
    ensures
        r.0 == spec_dist_scan(links.deep_view(), target@, prefix@).0,
        r.1.deep_view() == spec_dist_scan(links.deep_view(), target@, prefix@).1,
{
    let n = links.len();
    let mut acc: Vec<String> = Vec::new();
    let mut i: usize = 0;
    proof {
        assert(links.deep_view().skip(0) =~~= links.deep_view());
    }
    while i < n
        invariant
            i <= n,
            n == links@.len(),
            spec_dist_scan(links.deep_view(), target@, prefix@).0 == spec_dist_scan(
                links.deep_view().skip(i as int),
                target@,
                prefix@,
            ).0,
            spec_dist_scan(links.deep_view(), target@, prefix@).1 == acc.deep_view()
                + spec_dist_scan(links.deep_view().skip(i as int), target@, prefix@).1,
        decreases n - i,
    {
        proof {
            assert(links.deep_view().skip(i as int)[0] == links.deep_view()[i as int]);
            assert(links.deep_view().skip(i as int).drop_first() =~~= links.deep_view().skip(
                i + 1,
            ));
        }
        if str_contains_sub(links[i].as_str(), target) {
            proof {
                assert(acc.deep_view() + Seq::<Seq<char>>::empty() =~~= acc.deep_view());
            }
            return (true, acc);
        }
        if str_starts_with(links[i].as_str(), prefix) {
            let ghost prev = acc.deep_view();
            acc.push(links[i].clone());
            proof {
                assert(acc.deep_view() =~~= prev + seq![links.deep_view()[i as int]]);
            }
        }
        proof {
            assert(acc.deep_view() + spec_dist_scan(
                links.deep_view().skip(i + 1),
                target@,
                prefix@,
            ).1 =~~= spec_dist_scan(links.deep_view(), target@, prefix@).1);
        }
        i = i + 1;
    }
    proof {
        assert(acc.deep_view() + Seq::<Seq<char>>::empty() =~~= acc.deep_view());
    }
    (false, acc)
}

/// The version prefix a dist entry opens with.
pub open spec fn spec_dist_prefix(version: Seq<char>) -> Seq<char> {
    "node-v"@ + version
}

/// The build name the current platform needs.
pub open spec fn spec_dist_target(version: Seq<char>, os: Seq<char>, arch: Seq<char>) -> Seq<
    char,
> {
    spec_dist_prefix(version) + "-"@ + os + "-"@ + arch
}

fn build_dist_prefix(version: &str) -> (r: String)
    ensures
        r@ == spec_dist_prefix(version@),
{
    let mut s = "node-v".to_owned();
    s.append(version);
    s
}

fn build_dist_target(version: &str, os: &str, arch: &str) -> (r: String)
    ensures
        r@ == spec_dist_target(version@, os@, arch@),
{
    let mut s = build_dist_prefix(version);
    s.append("-");
    s.append(os);
    s.append("-");
    s.append(arch);
    proof {
        assert(s@ =~= spec_dist_target(version@, os@, arch@));
    }
    s
}

/// Whether the dist index page supports this version on this
/// platform: the page's anchor targets scanned for the build name.
/// An unsupported platform fails, naming the os-arch pair, and
/// carries the entries that were offered for the version instead.
pub fn classify_dist_index(text: &str, version: &str, os: &str, arch: &str) -> (r: (
    Result<(), SnmError>,
    Vec<String>,
))
    ensures
        ({
            let scan = spec_dist_scan(
                href_targets(text@),
                spec_dist_target(version@, os@, arch@),
                spec_dist_prefix(version@),
            );
            &&& (scan.0 ==> r.0 is Ok)
            &&& (!scan.0 ==> (r.0 matches Result::Err(e) && e matches
                SnmError::UnsupportedPlatform { os: o, arch: a } && o@ == os@ && a@ == arch@))
            &&& r.1.deep_view() == scan.1
        }),
{
    let links = extract_href_targets(text);
    let prefix = build_dist_prefix(version);
    let target = build_dist_target(version, os, arch);
    let (supported, offered) = check_supported_decision(&links, target.as_str(), prefix.as_str());
    if supported {
        (Ok(()), offered)
    } else {
        (
            Err(SnmError::UnsupportedPlatform { os: os.to_owned(), arch: arch.to_owned() }),
            offered,
        )
    }
}

/// Classifies the index response before its body is read: a request
/// that never completed is a failed download naming the URL, and a
/// non-success status means the platform has no published build.
pub fn dist_response_gate(request_ok: bool, status_success: bool, url: &str, os: &str, arch: &str)
    -> (r: Result<(), SnmError>)
    ensures
        !request_ok ==> (r matches Result::Err(e) && e matches SnmError::DownloadFailed {
            download_url,
        } && download_url@ == url@),
        request_ok && !status_success ==> (r matches Result::Err(e) && e matches
            SnmError::UnsupportedPlatform { os: o, arch: a } && o@ == os@ && a@ == arch@),
        request_ok && status_success ==> r is Ok,
{
    if !request_ok {
        Err(SnmError::DownloadFailed { download_url: url.to_owned() })
    } else if !status_success {
        Err(SnmError::UnsupportedPlatform { os: os.to_owned(), arch: arch.to_owned() })
    } else {
        Ok(())
    }
}

} // verus!
