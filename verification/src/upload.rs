//! Responses for the asset-upload route.
//!
//! The route streams each uploaded part to a bucket path and answers with
//! one record per part: the storage path, the public link derived from it,
//! and the number of bytes transferred. Deriving the link rewrites the
//! bucket scheme into its public gateway prefix.

use vstd::prelude::*;
use vstd::string::*;

verus! {

/// Every occurrence of `pat` in `s`, leftmost first and non-overlapping,
/// replaced by `rep`; `s` unchanged when `pat` is empty.
pub open spec fn replace_all(s: Seq<char>, pat: Seq<char>, rep: Seq<char>) -> Seq<char>
    decreases s.len(),
{
    if pat.len() == 0 || s.len() < pat.len() {
        s
    } else if s.subrange(0, pat.len() as int) == pat {
        rep + replace_all(s.skip(pat.len() as int), pat, rep)
    } else {
        seq![s[0]] + replace_all(s.skip(1), pat, rep)
    }
}

fn matches_at(s: &str, i: usize, pat: &str) -> (b: bool)
    requires
        i + pat@.len() <= s@.len() <= usize::MAX,
    ensures
        b <==> s@.subrange(i as int, i + pat@.len()) == pat@,
{
    let p = pat.unicode_len();
    let mut j: usize = 0;
    while j < p
        invariant
            p == pat@.len(),
            i + p <= s@.len() <= usize::MAX,
            j <= p,
            forall|k: int| 0 <= k < j ==> s@[i + k] == pat@[k],
        decreases p - j,
    {
        if s.get_char(i + j) != pat.get_char(j) {
            assert(s@.subrange(i as int, i + pat@.len())[j as int] != pat@[j as int]);
            return false;
        }
        j += 1;
    }
    assert(s@.subrange(i as int, i + pat@.len()) =~= pat@);
    true
}

fn replace_str(s: &str, pat: &str, rep: &str) -> (r: String)
    requires
        pat@.len() >= 1,
    ensures
        r@ == replace_all(s@, pat@, rep@),
{
    let n = s.unicode_len();
    let p = pat.unicode_len();
    let mut out = String::new();
    let mut i: usize = 0;
    proof {
        assert(s@.skip(0) =~= s@);
        assert(out@ + replace_all(s@, pat@, rep@) =~= replace_all(s@, pat@, rep@));
    }
    while i < n
        invariant
            n == s@.len(),
            p == pat@.len(),
            p >= 1,
            i <= n,
            s@.len() <= usize::MAX,
            out@ + replace_all(s@.skip(i as int), pat@, rep@) == replace_all(s@, pat@, rep@),
        decreases n - i,
    {
        let ghost rest = s@.skip(i as int);
        if p <= n - i && matches_at(s, i, pat) {
            proof {
                assert(rest.subrange(0, p as int) =~= s@.subrange(i as int, i + p));
                assert(rest.skip(p as int) =~= s@.skip(i + p));
            }
            out.append(rep);
            i += p;
            proof {
                assert(out@ + replace_all(s@.skip(i as int), pat@, rep@) =~= replace_all(
                    s@,
                    pat@,
                    rep@,
                ));
            }
        } else {
            proof {
                if p <= n - i {
                    assert(rest.subrange(0, p as int) =~= s@.subrange(i as int, i + p));
                    assert(rest.subrange(0, p as int) != pat@);
                } else {
                    assert(replace_all(rest, pat@, rep@) == rest);
                    assert(replace_all(rest.skip(1), pat@, rep@) == rest.skip(1));
                }
                assert(rest =~= seq![rest[0]] + rest.skip(1));
            }
            let c = s.substring_char(i, i + 1);
            out.append(c);
            i += 1;
            proof {
                assert(c@ =~= seq![rest[0]]);
                assert(rest.skip(1) =~= s@.skip(i as int));
                assert(out@ + replace_all(s@.skip(i as int), pat@, rep@) =~= replace_all(
                    s@,
                    pat@,
                    rep@,
                ));
            }
        }
    }
    proof {
        assert(s@.skip(n as int) =~= Seq::<char>::empty());
        assert(out@ + replace_all(s@.skip(n as int), pat@, rep@) =~= out@);
    }
    out
}

/// One uploaded part, as reported back to the producer.
pub struct UploadResponse {
    pub filepath: String,
    pub filelink: String,
    pub filesize: i64,
}

impl UploadResponse {
    /// Record one transferred part: the public link substitutes the bucket
    /// scheme with the storage gateway prefix.
    pub fn new(filepath: String, filesize: i64) -> (r: UploadResponse)
        ensures
            r.filepath@ == filepath@,
            r.filesize == filesize,
            r.filelink@ == replace_all(
                filepath@,
                "gs://"@,
                "http://storage.googleapis.com/"@,
            ),
    {
        proof {
            reveal_strlit("gs://");
        }
        let filelink = replace_str(filepath.as_str(), "gs://", "http://storage.googleapis.com/");
        UploadResponse { filepath, filelink, filesize }
    }
}

/// The bucket path an uploaded part is stored under: named parts go into the
/// assets bucket, a part without a filename falls back to a scratch file.
pub fn gcs_file_path(filename: Option<&str>) -> (r: String)
    ensures
        (filename matches Some(f) ==> r@ == "gs://electric-assets/"@ + f@),
        (filename is None ==> r@ == "temp.txt"@),
{
    match filename {
        Some(f) => {
            let mut s = "gs://electric-assets/".to_owned();
            s.append(f);
            s
        },
        None => "temp.txt".to_owned(),
    }
}

/// The response records for one finished upload, one per collected
/// `(path, size)` pair, in order.
pub fn upload_responses(items: Vec<(String, i64)>) -> (r: Vec<UploadResponse>)
    ensures
        r@.len() == items@.len(),
        forall|i: int| 0 <= i < items@.len() ==> (r@[i].filepath@ == items@[i].0@ && r@[i].filesize
            == items@[i].1 && r@[i].filelink@ == replace_all(
            items@[i].0@,
            "gs://"@,
            "http://storage.googleapis.com/"@,
        )),
{
    let n = items.len();
    let mut r: Vec<UploadResponse> = Vec::new();
    let mut i: usize = 0;
    while i < n
        invariant
            n == items@.len(),
            i <= n,
            r@.len() == i,
            forall|j: int| 0 <= j < i ==> (r@[j].filepath@ == items@[j].0@ && r@[j].filesize
                == items@[j].1 && r@[j].filelink@ == replace_all(
                items@[j].0@,
                "gs://"@,
                "http://storage.googleapis.com/"@,
            )),
        decreases n - i,
    {
        let path = items[i].0.clone();
        let size = items[i].1;
        r.push(UploadResponse::new(path, size));
        i += 1;
    }
    r
}

} // verus!
