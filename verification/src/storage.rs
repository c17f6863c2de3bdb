//! The computable side of the object-storage operations: fork-scoped key
//! computation, the pagination protocol over listing pages, and fork-name
//! extraction from grouped prefixes. The store itself is driven outside the
//! library; everything here is a function from plain values to plain values.

use vstd::prelude::*;
use vstd::seq_lib::*;
use vstd::string::*;

use crate::text;

verus! {

/// One page of an object listing: the keys it holds, whether the listing
/// was truncated, and the token with which the next page is requested.
pub struct ListPage {
    pub keys: Vec<String>,
    pub is_truncated: bool,
    pub next_continuation_token: Option<String>,
}

/// The bucket and root prefix that scope every storage operation of one
/// configured bucket.
pub struct StorageTarget {
    pub bucket: String,
    pub prefix: String,
}

/// The destination root of a fork within a bucket: the root prefix, the
/// fork name and a trailing separator.
pub open spec fn fork_root_of(prefix: Seq<char>, fork_name: Seq<char>) -> Seq<char> {
    prefix + fork_name + "/"@
}

/// The displayed location of a fork's objects within a bucket.
pub open spec fn location_of(bucket: Seq<char>, fork_root: Seq<char>) -> Seq<char> {
    "s3://"@ + bucket + "/"@ + fork_root
}

/// The key an object is copied to: the destination root followed by the
/// key relative to the source prefix (the whole key when the source prefix
/// does not lead it).
pub open spec fn destination_key_of(
    fork_root: Seq<char>,
    source_prefix: Seq<char>,
    key: Seq<char>,
) -> Seq<char> {
    fork_root + text::strip_or_self(key, source_prefix)
}

/// The copy source naming an object for a server-side copy.
pub open spec fn copy_source_of(bucket: Seq<char>, key: Seq<char>) -> Seq<char> {
    bucket + "/"@ + key
}

/// How many listing calls the pagination protocol makes over these pages:
/// pages are consumed in order while each reports truncation.
pub open spec fn consumed_pages(pages: Seq<ListPage>) -> nat
    decreases pages.len(),
{
    if pages.len() == 0 {
        0
    } else if !pages[0].is_truncated {
        1
    } else {
        1 + consumed_pages(pages.drop_first())
    }
}

/// The keys the pagination protocol sees over these pages: the union, in
/// order, of every consumed page's keys.
pub open spec fn listed_keys(pages: Seq<ListPage>) -> Seq<Seq<char>>
    decreases pages.len(),
{
    if pages.len() == 0 {
        Seq::empty()
    } else if !pages[0].is_truncated {
        pages[0].keys.deep_view()
    } else {
        pages[0].keys.deep_view() + listed_keys(pages.drop_first())
    }
}

fn append_all(dst: &mut Vec<String>, src: &Vec<String>)
    ensures
        final(dst)@ == old(dst)@ + src@,
{
    let mut j: usize = 0;
    proof {
        assert(dst@ =~= old(dst)@ + src@.subrange(0, 0));
    }
    while j < src.len()
        invariant
            j <= src.len(),
            dst@ == old(dst)@ + src@.subrange(0, j as int),
        decreases src.len() - j,
    {
        dst.push(src[j].clone());
        proof {
            assert(old(dst)@ + src@.subrange(0, j + 1) =~= (old(dst)@ + src@.subrange(
                0,
                j as int,
            )).push(src@[j as int]));
        }
        j += 1;
    }
    proof {
        assert(src@.subrange(0, src.len() as int) =~= src@);
    }
}

fn collect_from(pages: &Vec<ListPage>, i: usize) -> (r: (Vec<String>, usize))
    requires
        i <= pages.len(),
    ensures
        r.0.deep_view() == listed_keys(pages@.subrange(i as int, pages.len() as int)),
        r.1 == consumed_pages(pages@.subrange(i as int, pages.len() as int)),
        r.1 <= pages.len() - i,
    decreases pages.len() - i,
{
    let ghost rest = pages@.subrange(i as int, pages.len() as int);
    if i == pages.len() {
        proof {
            assert(rest =~= Seq::<ListPage>::empty());
        }
        (Vec::new(), 0)
    } else {
        let mut keys: Vec<String> = Vec::new();
        append_all(&mut keys, &pages[i].keys);
        proof {
            assert(keys@ =~= pages@[i as int].keys@);
            assert(keys.deep_view() =~= pages@[i as int].keys.deep_view());
            assert(rest[0] == pages@[i as int]);
        }
        if !pages[i].is_truncated {
            (keys, 1)
        } else {
            let (more, n) = collect_from(pages, i + 1);
            append_all(&mut keys, &more);
            proof {
                assert(rest.drop_first() =~= pages@.subrange(i + 1, pages.len() as int));
                assert(keys.deep_view() =~= pages@[i as int].keys.deep_view() + more.deep_view());
            }
            (keys, 1 + n)
        }
    }
}

/// Drives the pagination protocol over pre-fetched pages: hands back the
/// keys seen and how many listing calls were made.
pub fn collect_listed_keys(pages: &Vec<ListPage>) -> (r: (Vec<String>, usize))
    ensures
        r.0.deep_view() == listed_keys(pages@),
        r.1 == consumed_pages(pages@),
{
    let r = collect_from(pages, 0);
    proof {
        assert(pages@.subrange(0, pages.len() as int) =~= pages@);
    }
    r
}

/// The names extracted from grouped common prefixes: each prefix with the
/// root prefix stripped and trailing separators removed, empty results
/// discarded.
pub open spec fn extracted_names(prefixes: Seq<Seq<char>>, root: Seq<char>) -> Seq<Seq<char>>
    decreases prefixes.len(),
{
    if prefixes.len() == 0 {
        Seq::empty()
    } else {
        let name = text::trim_trailing(text::strip_or_self(prefixes.last(), root), '/');
        extracted_names(prefixes.drop_last(), root) + (if name.len() > 0 {
            seq![name]
        } else {
            Seq::empty()
        })
    }
}

impl StorageTarget {
    /// The destination root for a fork of this name in this bucket.
    pub fn fork_root(&self, fork_name: &str) -> (r: String)
        ensures
            r@ == fork_root_of(self.prefix@, fork_name@),
    {
        String::from_str(self.prefix.as_str()).concat(fork_name).concat("/")
    }

    /// The displayed location of a fork root in this bucket.
    pub fn location(&self, fork_root: &str) -> (r: String)
        ensures
            r@ == location_of(self.bucket@, fork_root@),
    {
        String::from_str("s3://").concat(self.bucket.as_str()).concat("/").concat(fork_root)
    }

    /// The server-side copy calls that carry one page of listed keys into a
    /// fork root: for each key, the copy source naming the source object
    /// and the destination key under the fork root.
    pub fn copy_pairs(&self, keys: &Vec<String>, source_prefix: &str, fork_root: &str) -> (r: Vec<
        (String, String),
    >)
        ensures
            r@.len() == keys@.len(),
            forall|k: int|
                0 <= k < r@.len() ==> r@[k].0@ == copy_source_of(self.bucket@, keys@[k]@)
                    && r@[k].1@ == destination_key_of(fork_root@, source_prefix@, keys@[k]@),
    {
        let mut r: Vec<(String, String)> = Vec::new();
        let mut k: usize = 0;
        while k < keys.len()
            invariant
                k <= keys.len(),
                r@.len() == k,
                forall|j: int|
                    0 <= j < k ==> r@[j].0@ == copy_source_of(self.bucket@, keys@[j]@)
                        && r@[j].1@ == destination_key_of(fork_root@, source_prefix@, keys@[j]@),
            decreases keys.len() - k,
        {
            let source = String::from_str(self.bucket.as_str()).concat("/").concat(
                keys[k].as_str(),
            );
            let dest = String::from_str(fork_root).concat(
                text::str_strip_prefix(keys[k].as_str(), source_prefix),
            );
            r.push((source, dest));
            k += 1;
        }
        r
    }

    /// The whole copy operation over pre-fetched listing pages: the copy
    /// calls for every key the pagination protocol sees, the number of
    /// listing calls made, and the location string the operation reports.
    pub fn copy_to_fork(&self, source_prefix: &str, fork_name: &str, pages: &Vec<ListPage>) -> (r:
        (Vec<(String, String)>, usize, String))
        ensures
            r.0@.len() == listed_keys(pages@).len(),
            forall|k: int|
                0 <= k < r.0@.len() ==> r.0@[k].0@ == copy_source_of(
                    self.bucket@,
                    listed_keys(pages@)[k],
                ) && r.0@[k].1@ == destination_key_of(
                    fork_root_of(self.prefix@, fork_name@),
                    source_prefix@,
                    listed_keys(pages@)[k],
                ),
            r.1 == consumed_pages(pages@),
            r.2@ == location_of(self.bucket@, fork_root_of(self.prefix@, fork_name@)),
    {
        let root = self.fork_root(fork_name);
        let (keys, calls) = collect_listed_keys(pages);
        let pairs = self.copy_pairs(&keys, source_prefix, root.as_str());
        let loc = self.location(root.as_str());
        proof {
            assert(forall|k: int|
                0 <= k < keys@.len() ==> keys@[k]@ == keys.deep_view()[k]);
        }
        (pairs, calls, loc)
    }

    /// The whole delete operation over pre-fetched listing pages: the fork
    /// root the listing runs under, the keys to delete, and the number of
    /// listing calls made.
    pub fn delete_fork(&self, fork_name: &str, pages: &Vec<ListPage>) -> (r: (
        String,
        Vec<String>,
        usize,
    ))
        ensures
            r.0@ == fork_root_of(self.prefix@, fork_name@),
            r.1.deep_view() == listed_keys(pages@),
            r.2 == consumed_pages(pages@),
    {
        let root = self.fork_root(fork_name);
        let (keys, calls) = collect_listed_keys(pages);
        (root, keys, calls)
    }

    /// The fork names visible in one delimiter-grouped listing: each common
    /// prefix with this target's root prefix stripped and trailing
    /// separators removed, empty names discarded.
    pub fn list_forks(&self, common_prefixes: &Vec<String>) -> (r: Vec<String>)
        ensures
            r.deep_view() == extracted_names(common_prefixes.deep_view(), self.prefix@),
    {
        let mut r: Vec<String> = Vec::new();
        let mut i: usize = 0;
        proof {
            assert(r.deep_view() =~= extracted_names(
                common_prefixes.deep_view().subrange(0, 0),
                self.prefix@,
            ));
        }
        while i < common_prefixes.len()
            invariant
                i <= common_prefixes.len(),
                r.deep_view() == extracted_names(
                    common_prefixes.deep_view().subrange(0, i as int),
                    self.prefix@,
                ),
            decreases common_prefixes.len() - i,
        {
            let stripped = text::str_strip_prefix(
                common_prefixes[i].as_str(),
                self.prefix.as_str(),
            );
            let name = text::str_trim_end(stripped, '/');
            if name.as_str().unicode_len() > 0 {
                r.push(name);
            }
            proof {
                let pre = common_prefixes.deep_view().subrange(0, i as int);
                let cur = common_prefixes.deep_view().subrange(0, i + 1);
                assert(cur.drop_last() =~= pre);
                assert(cur.last() == common_prefixes.deep_view()[i as int]);
                assert(r.deep_view() =~= extracted_names(cur, self.prefix@));
            }
            i += 1;
        }
        proof {
            assert(common_prefixes.deep_view().subrange(
                0,
                common_prefixes.len() as int,
            ) =~= common_prefixes.deep_view());
        }
        r
    }
}

} // verus!
