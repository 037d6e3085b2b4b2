//! Result records and how they are built from the raw entries of a listing
//! payload.
//!
//! The surrounding application fetches a listing page over the network and
//! parses it into plain [`Video`] entries; everything after that point is
//! decided here. An entry is kept when its type, lowercased, reads
//! `"stream"` and its short-form flag marks it as non-short; an entry
//! missing one of the display fields is dropped rather than failing the
//! whole fetch. Each
//! kept entry becomes an [`OrangeResult`]: the title with escaped double
//! slashes stripped, the full watch-page locator, the formatted duration,
//! and the uploader data.

use vstd::prelude::*;
use vstd::string::*;

use crate::duration::{duration_text, format_duration};
use crate::text::{chars_to_string, lower_of, lowercase, push_str_chars};

verus! {

/// One raw entry of a listing payload, already decoded into plain values.
pub struct Video {
    pub url: String,
    pub video_type: String,
    pub title: Option<String>,
    pub duration: Option<i32>,
    pub uploader_name: Option<String>,
    pub video_duration: Option<String>,
    pub is_short: Option<bool>,
    pub uploader_verified: Option<bool>,
}

/// One page of a search payload: its entries and the token of the next page.
pub struct Response {
    pub items: Vec<Video>,
    pub nextpage: String,
}

/// A playable result as the interactive list displays it.
pub struct OrangeResult {
    pub title: String,
    pub url: String,
    pub duration: String,
    pub uploader: String,
    pub is_verified: bool,
}

/// The mathematical image of an [`OrangeResult`].
#[verifier::ext_equal]
pub struct ResultView {
    pub title: Seq<char>,
    pub url: Seq<char>,
    pub duration: Seq<char>,
    pub uploader: Seq<char>,
    pub is_verified: bool,
}

impl View for OrangeResult {
    type V = ResultView;

    open spec fn view(&self) -> ResultView {
        ResultView {
            title: self.title@,
            url: self.url@,
            duration: self.duration@,
            uploader: self.uploader@,
            is_verified: self.is_verified,
        }
    }
}

impl DeepView for OrangeResult {
    type V = ResultView;

    open spec fn deep_view(&self) -> ResultView {
        self.view()
    }
}

/// The watch-page prefix every locator starts with.
pub open spec fn url_prefix() -> Seq<char> {
    "https://www.youtube.com"@
}

/// The full locator of an entry: the site prefix followed by the watch path.
pub open spec fn video_url_text(path: Seq<char>) -> Seq<char> {
    url_prefix() + path
}

/// Prepends the watch-page prefix to a watch path.
pub fn make_url(watch_path: &str) -> (r: String)
    ensures
        r@ == video_url_text(watch_path@),
{
    let mut u: String = String::from_str("https://www.youtube.com");
    u.append(watch_path);
    u
}

/// The title text with every escaped double slash removed, exactly as
/// `str::replace("//", "")` computes it: matches are found left to right
/// and do not overlap.
pub open spec fn strip_double_slash(s: Seq<char>) -> Seq<char>
    decreases s.len(),
{
    if s.len() >= 2 && s[0] == '/' && s[1] == '/' {
        strip_double_slash(s.skip(2))
    } else if s.len() == 0 {
        Seq::<char>::empty()
    } else {
        seq![s[0]] + strip_double_slash(s.skip(1))
    }
}

/// Removes every escaped double slash from a title.
pub fn normalize_title(title: &str) -> (r: String)
    ensures
        r@ == strip_double_slash(title@),
{
    let mut cs: Vec<char> = Vec::new();
    push_str_chars(&mut cs, title);
    let mut out: Vec<char> = Vec::new();
    let mut i: usize = 0;
    proof {
        assert(cs@.skip(0) =~= cs@);
        assert(Seq::<char>::empty() + strip_double_slash(title@) =~= strip_double_slash(title@));
    }
    while i < cs.len()
        invariant
            cs@ == title@,
            i <= cs@.len(),
            strip_double_slash(title@) == out@ + strip_double_slash(cs@.skip(i as int)),
        decreases cs@.len() - i,
    {
        if cs[i] == '/' && i + 1 < cs.len() && cs[i + 1] == '/' {
            proof {
                assert(cs@.skip(i as int).skip(2) =~= cs@.skip(i as int + 2));
            }
            i += 2;
        } else {
            let ghost prev = out@;
            out.push(cs[i]);
            proof {
                assert(cs@.skip(i as int).skip(1) =~= cs@.skip(i as int + 1));
                assert(strip_double_slash(cs@.skip(i as int)) == seq![cs@[i as int]]
                    + strip_double_slash(cs@.skip(i as int + 1)));
                assert(out@ == prev.push(cs@[i as int]));
                assert(prev + (seq![cs@[i as int]] + strip_double_slash(cs@.skip(i as int + 1)))
                    =~= out@ + strip_double_slash(cs@.skip(i as int + 1)));
            }
            i += 1;
        }
    }
    proof {
        assert(cs@.skip(cs@.len() as int) =~= Seq::<char>::empty());
        assert(out@ + Seq::<char>::empty() =~= out@);
    }
    chars_to_string(&out)
}

/// An entry is kept when its type, lowercased, reads `"stream"` and its
/// short-form flag marks it as non-short.
pub open spec fn video_kept(v: Video) -> bool {
    lower_of(v.video_type@) == "stream"@ && v.is_short == Some(false)
}

/// An entry carries every field the displayed record needs.
pub open spec fn video_complete(v: Video) -> bool {
    v.title is Some && v.duration is Some && v.uploader_name is Some && v.uploader_verified is Some
}

/// The record built from a kept, complete entry.
pub open spec fn record_of(v: Video) -> ResultView {
    ResultView {
        title: strip_double_slash(v.title.unwrap()@),
        url: video_url_text(v.url@),
        duration: duration_text(v.duration.unwrap() as int),
        uploader: v.uploader_name.unwrap()@,
        is_verified: v.uploader_verified.unwrap(),
    }
}

/// The records of the kept, complete entries of a listing, in order.
pub open spec fn results_of(items: Seq<Video>) -> Seq<ResultView>
    decreases items.len(),
{
    if items.len() == 0 {
        Seq::<ResultView>::empty()
    } else if video_kept(items[0]) && video_complete(items[0]) {
        seq![record_of(items[0])] + results_of(items.skip(1))
    } else {
        results_of(items.skip(1))
    }
}

proof fn lemma_results_of_push(items: Seq<Video>, v: Video)
    ensures
        results_of(items.push(v)) == results_of(items) + (if video_kept(v) && video_complete(v) {
            seq![record_of(v)]
        } else {
            Seq::<ResultView>::empty()
        }),
    decreases items.len(),
{
    let tail = (if video_kept(v) && video_complete(v) {
        seq![record_of(v)]
    } else {
        Seq::<ResultView>::empty()
    });
    if items.len() == 0 {
        assert(items.push(v)[0] == v);
        assert(items.push(v).skip(1) =~= Seq::<Video>::empty());
        assert(results_of(Seq::<Video>::empty()) == Seq::<ResultView>::empty());
        assert(results_of(items) == Seq::<ResultView>::empty());
        if video_kept(v) && video_complete(v) {
            assert(results_of(items.push(v)) == seq![record_of(v)]
                + Seq::<ResultView>::empty());
            assert(seq![record_of(v)] + Seq::<ResultView>::empty() =~= Seq::<
                ResultView,
            >::empty() + tail);
        } else {
            assert(results_of(items.push(v)) == Seq::<ResultView>::empty());
            assert(Seq::<ResultView>::empty() =~= Seq::<ResultView>::empty() + tail);
        }
    } else {
        let head = items[0];
        assert(items.push(v)[0] == head);
        assert(items.push(v).skip(1) =~= items.skip(1).push(v));
        lemma_results_of_push(items.skip(1), v);
        if video_kept(head) && video_complete(head) {
            assert(results_of(items.push(v)) == seq![record_of(head)] + (results_of(items.skip(1))
                + tail));
            assert(results_of(items) == seq![record_of(head)] + results_of(items.skip(1)));
            assert(seq![record_of(head)] + (results_of(items.skip(1)) + tail) =~= (seq![
                record_of(head),
            ] + results_of(items.skip(1))) + tail);
        } else {
            assert(results_of(items.push(v)) == results_of(items.skip(1)) + tail);
        }
    }
}

/// Decides [`video_kept`] for a concrete entry.
pub fn check_video(v: &Video) -> (b: bool)
    ensures
        b == video_kept(*v),
{
    let lt: String = lowercase(v.video_type.as_str());
    let stream: String = String::from_str("stream");
    let non_short: bool = match v.is_short {
        Some(flag) => !flag,
        None => false,
    };
    lt == stream && non_short
}

/// Builds the displayed records from the raw entries of one listing: keeps
/// the stream-typed entries flagged as non-short, drops entries missing a
/// display field, and formats each kept entry.
pub fn build_results(items: Vec<Video>) -> (r: Vec<OrangeResult>)
    ensures
        r.deep_view() == results_of(items@),
{
    let mut r: Vec<OrangeResult> = Vec::new();
    let mut i: usize = 0;
    while i < items.len()
        invariant
            i <= items@.len(),
            r.deep_view() == results_of(items@.take(i as int)),
        decreases items@.len() - i,
    {
        let v = &items[i];
        let ghost prev = r.deep_view();
        if check_video(v) && v.title.is_some() && v.duration.is_some() && v.uploader_name.is_some()
            && v.uploader_verified.is_some() {
            let rec = OrangeResult {
                title: normalize_title(v.title.as_ref().unwrap().as_str()),
                url: make_url(v.url.as_str()),
                duration: format_duration(v.duration.unwrap()),
                uploader: v.uploader_name.as_ref().unwrap().clone(),
                is_verified: v.uploader_verified.unwrap(),
            };
            proof {
                assert(rec.deep_view() =~= record_of(items@[i as int]));
            }
            r.push(rec);
            proof {
                assert(r.deep_view() =~= prev.push(rec.deep_view()));
            }
        }
        proof {
            assert(items@.take(i as int).push(items@[i as int]) =~= items@.take(i as int + 1));
            lemma_results_of_push(items@.take(i as int), items@[i as int]);
        }
        i += 1;
    }
    proof {
        assert(items@.take(items@.len() as int) =~= items@);
    }
    r
}

} // verus!
