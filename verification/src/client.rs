//! Verified pieces of the synchronisation client: parsing the
//! `local:remote` file-mapping list and recognising the request
//! protocol.

use vstd::prelude::*;
use vstd::string::StringExecFns;
use crate::text::{lower, split_on, split_string, str_eq_ignore_case, string_views};

verus! {

/// The pair a mapping chunk names: what stands before the first colon
/// and what stands between the first and the second.  A chunk without a
/// colon is malformed.
pub open spec fn mapping_of_chunk(chunk: Seq<char>) -> Option<(Seq<char>, Seq<char>)> {
    let parts = split_on(chunk, ':');
    if parts.len() < 2 {
        None
    } else {
        Some((parts[0], parts[1]))
    }
}

/// The pairs a sequence of chunks names, or nothing if any chunk is
/// malformed.
pub open spec fn mappings_of_chunks(chunks: Seq<Seq<char>>) -> Option<
    Seq<(Seq<char>, Seq<char>)>,
>
    decreases chunks.len(),
{
    if chunks.len() == 0 {
        Some(Seq::empty())
    } else {
        match mapping_of_chunk(chunks[0]) {
            None => None,
            Some(p) => match mappings_of_chunks(chunks.drop_first()) {
                None => None,
                Some(rest) => Some(seq![p] + rest),
            },
        }
    }
}

/// What a `local:remote[,local:remote...]` mappings string parses to.
pub open spec fn file_mappings_spec(s: Seq<char>) -> Option<Seq<(Seq<char>, Seq<char>)>> {
    mappings_of_chunks(split_on(s, ','))
}

/// The character views of a sequence of string pairs.
pub open spec fn pair_views(v: Seq<(String, String)>) -> Seq<(Seq<char>, Seq<char>)> {
    v.map_values(|p: (String, String)| (p.0@, p.1@))
}

/// Parse a comma-separated list of `local:remote` file mappings, in
/// order.  Returns nothing when some chunk names no colon at all.
pub fn parse_file_mappings(mappings: &str) -> (r: Option<Vec<(String, String)>>)
    ensures
        match r {
            Some(v) => file_mappings_spec(mappings@) == Some(pair_views(v@)),
            None => file_mappings_spec(mappings@) is None,
        },
{
    let chunks = split_string(mappings, ',');
    let mut out: Vec<(String, String)> = Vec::new();
    let mut i: usize = 0;
    proof {
        assert(string_views(chunks@).skip(0) =~= string_views(chunks@));
        assert(pair_views(out@) =~= Seq::<(Seq<char>, Seq<char>)>::empty());
    }
    while i < chunks.len()
        invariant
            i <= chunks@.len(),
            string_views(chunks@) == split_on(mappings@, ','),
            mappings_of_chunks(string_views(chunks@)) == (match mappings_of_chunks(
                string_views(chunks@).skip(i as int),
            ) {
                None => None,
                Some(rest) => Some(pair_views(out@) + rest),
            }),
        decreases chunks@.len() - i,
    {
        proof {
            let cv = string_views(chunks@);
            assert(cv.skip(i as int)[0] == chunks@[i as int]@);
            assert(cv.skip(i as int).drop_first() =~= cv.skip(i + 1));
        }
        let kv = split_string(chunks[i].as_str(), ':');
        if kv.len() < 2 {
            proof {
                let cv = string_views(chunks@);
                assert(string_views(kv@).len() == kv@.len());
                assert(mapping_of_chunk(cv.skip(i as int)[0]) is None);
                assert(mappings_of_chunks(cv.skip(i as int)) is None);
            }
            return None;
        }
        let local = kv[0].clone();
        let remote = kv[1].clone();
        proof {
            assert(string_views(kv@)[0] == kv@[0int]@);
            assert(string_views(kv@)[1] == kv@[1int]@);
        }
        let ghost old_out = out@;
        out.push((local, remote));
        proof {
            let cv = string_views(chunks@);
            let p = mapping_of_chunk(cv.skip(i as int)[0]).unwrap();
            assert(pair_views(out@) =~= pair_views(old_out) + seq![p]);
            assert forall|rest: Seq<(Seq<char>, Seq<char>)>|
                true implies (pair_views(old_out) + (seq![p] + rest)) == ((pair_views(old_out)
                + seq![p]) + rest) by {
                assert((pair_views(old_out) + (seq![p] + rest)) =~= ((pair_views(old_out)
                + seq![p]) + rest));
            }
        }
        i = i + 1;
    }
    proof {
        assert(string_views(chunks@).skip(chunks@.len() as int) =~= Seq::<Seq<char>>::empty());
        assert(pair_views(out@) + Seq::<(Seq<char>, Seq<char>)>::empty() =~= pair_views(out@));
    }
    Some(out)
}

/// The URL a request is sent to: `<scheme>://<addr><route>`.
pub open spec fn url_of(scheme: Seq<char>, addr: Seq<char>, route: Seq<char>) -> Seq<char> {
    scheme + "://"@ + addr + route
}

/// The URL of the server's liveness probe.
pub fn ping_url(protocol: &str, addr: &str) -> (r: String)
    ensures
        r@ == url_of(protocol@, addr@, "/ping"@),
{
    let mut out = protocol.to_owned();
    out.append("://");
    out.append(addr);
    out.append("/ping");
    out
}

/// The URL uploads are posted to.
pub fn upload_url(protocol: &str, addr: &str) -> (r: String)
    ensures
        r@ == url_of(protocol@, addr@, "/upload"@),
{
    let mut out = protocol.to_owned();
    out.append("://");
    out.append(addr);
    out.append("/upload");
    out
}

/// The URL download requests are posted to.
pub fn download_url(protocol: &str, addr: &str) -> (r: String)
    ensures
        r@ == url_of(protocol@, addr@, "/download"@),
{
    let mut out = protocol.to_owned();
    out.append("://");
    out.append(addr);
    out.append("/download");
    out
}

/// The protocol requests are made over, with the lower-cased scheme it
/// prints in URLs.
#[derive(Debug)]
pub enum ReqProtocol {
    Http(String),
    Https(String),
}

impl ReqProtocol {
    /// Recognise a protocol name up to ASCII case; anything but `http`
    /// and `https` is refused.
    pub fn new(protocol: &str) -> (r: Option<ReqProtocol>)
        ensures
            lower(protocol@) == "http"@ ==> (r matches Some(p) && p matches ReqProtocol::Http(d)
                && d@ == "http"@),
            lower(protocol@) == "https"@ ==> (r matches Some(p) && p matches ReqProtocol::Https(
                d,
            ) && d@ == "https"@),
            lower(protocol@) != "http"@ && lower(protocol@) != "https"@ ==> r is None,
    {
        proof {
            reveal_strlit("http");
            reveal_strlit("https");
            assert(lower("http"@) =~= "http"@);
            assert(lower("https"@) =~= "https"@);
        }
        if str_eq_ignore_case(protocol, "http") {
            Some(ReqProtocol::Http("http".to_owned()))
        } else if str_eq_ignore_case(protocol, "https") {
            Some(ReqProtocol::Https("https".to_owned()))
        } else {
            None
        }
    }

    /// The scheme this protocol prints in URLs.
    pub fn data(&self) -> (r: String)
        ensures
            *self matches ReqProtocol::Http(d) ==> r@ == d@,
            *self matches ReqProtocol::Https(d) ==> r@ == d@,
    {
        match self {
            ReqProtocol::Http(d) => d.clone(),
            ReqProtocol::Https(d) => d.clone(),
        }
    }
}

} // verus!
