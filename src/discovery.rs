use vstd::prelude::*;
use crate::manifest::texts;

verus! {

/// One entry of a directory listing, with the listing of each subdirectory
/// read in turn, in the order the file system gave it.
#[derive(Debug)]
pub enum Entry {
    File(String),
    Dir(Vec<Entry>),
}

/// The file paths of a listing, depth first: a subdirectory's files stand
/// where the subdirectory stood.
pub open spec fn files_in(es: Seq<Entry>) -> Seq<Seq<char>>
    decreases es,
{
    if es.len() == 0 {
        Seq::empty()
    } else {
        let rest = es.subrange(0, es.len() - 1);
        let last = es[es.len() - 1];
        match last {
            Entry::File(p) => files_in(rest).push(p@),
            Entry::Dir(children) => files_in(rest) + files_in(children@),
        }
    }
}

fn collect_into(entries: &Vec<Entry>, out: &mut Vec<String>)
    ensures
        texts(final(out)@) == texts(old(out)@) + files_in(entries@),
    decreases entries,
{
    let ghost start = texts(out@);
    let mut i: usize = 0;
    while i < entries.len()
        invariant
            0 <= i <= entries.len(),
            texts(out@) == start + files_in(entries@.subrange(0, i as int)),
        decreases entries.len() - i,
    {
        let ghost prev = texts(out@);
        let ghost upto = entries@.subrange(0, i + 1);
        assert(upto.subrange(0, upto.len() - 1) =~= entries@.subrange(0, i as int));
        match &entries[i] {
            Entry::File(p) => {
                let ghost before = out@;
                out.push(p.clone());
                assert(texts(out@) =~= texts(before).push(p@));
                assert(texts(out@) =~= start + files_in(upto));
            },
            Entry::Dir(children) => {
                assert(decreases_to!(entries => entries[i as int]));
                collect_into(children, out);
                assert(texts(out@) =~= start + files_in(upto));
            },
        }
        i = i + 1;
    }
    assert(entries@.subrange(0, i as int) =~= entries@);
}

/// Lists every file of a directory tree, depth first, in listing order.
pub fn discover(entries: &Vec<Entry>) -> (r: Vec<String>)
    ensures
        texts(r@) == files_in(entries@),
{
    let mut r: Vec<String> = Vec::new();
    collect_into(entries, &mut r);
    assert(texts(r@) =~= files_in(entries@));
    r
}

/// The number of files in a listing, subdirectories included.
pub open spec fn file_count(es: Seq<Entry>) -> nat
    decreases es,
{
    if es.len() == 0 {
        0
    } else {
        let rest = es.subrange(0, es.len() - 1);
        match es[es.len() - 1] {
            Entry::File(_) => file_count(rest) + 1,
            Entry::Dir(children) => file_count(rest) + file_count(children@),
        }
    }
}

/// An empty directory contributes no path.
pub proof fn lemma_empty_listing()
    ensures
        files_in(Seq::<Entry>::empty()) == Seq::<Seq<char>>::empty(),
{
}

/// Discovery finds exactly as many paths as the tree holds files, at any
/// depth.
pub proof fn lemma_discovery_counts_files(es: Seq<Entry>)
    ensures
        files_in(es).len() == file_count(es),
    decreases es,
{
    if es.len() > 0 {
        let rest = es.subrange(0, es.len() - 1);
        lemma_discovery_counts_files(rest);
        match es[es.len() - 1] {
            Entry::File(_) => {},
            Entry::Dir(children) => {
                assert(decreases_to!(es => es[es.len() - 1]));
                lemma_discovery_counts_files(children@);
            },
        }
    }
}

/// A listing that holds no file: only directories, themselves holding no
/// file, at any depth.
pub open spec fn holds_no_file(es: Seq<Entry>) -> bool
    decreases es,
{
    if es.len() == 0 {
        true
    } else {
        let rest = es.subrange(0, es.len() - 1);
        match es[es.len() - 1] {
            Entry::File(_) => false,
            Entry::Dir(children) => holds_no_file(children@) && holds_no_file(rest),
        }
    }
}

/// `b` is `a` with any number of file-free directories added, at any depth
/// and any position.
pub open spec fn padded(a: Seq<Entry>, b: Seq<Entry>) -> bool
    decreases b,
{
    if b.len() == 0 {
        a.len() == 0
    } else {
        let b0 = b.subrange(0, b.len() - 1);
        let added = match b[b.len() - 1] {
            Entry::File(_) => false,
            Entry::Dir(d) => holds_no_file(d@) && padded(a, b0),
        };
        let kept = a.len() > 0 && padded(a.subrange(0, a.len() - 1), b0) && match (
            a[a.len() - 1],
            b[b.len() - 1],
        ) {
            (Entry::File(p), Entry::File(q)) => p@ == q@,
            (Entry::Dir(c), Entry::Dir(d)) => padded(c@, d@),
            _ => false,
        };
        added || kept
    }
}

/// A listing without files yields no path.
pub proof fn lemma_no_file_no_path(es: Seq<Entry>)
    requires
        holds_no_file(es),
    ensures
        files_in(es) == Seq::<Seq<char>>::empty(),
    decreases es,
{
    if es.len() > 0 {
        let rest = es.subrange(0, es.len() - 1);
        if let Entry::Dir(children) = es[es.len() - 1] {
            assert(decreases_to!(es => es[es.len() - 1]));
            lemma_no_file_no_path(children@);
            lemma_no_file_no_path(rest);
            assert(files_in(es) =~= Seq::<Seq<char>>::empty());
        }
    }
}

/// Adding file-free directories anywhere in a tree, at any depth, leaves the
/// discovered paths unchanged.
pub proof fn lemma_empty_dirs_ignored(a: Seq<Entry>, b: Seq<Entry>)
    requires
        padded(a, b),
    ensures
        files_in(a) == files_in(b),
    decreases b,
{
    if b.len() == 0 {
    } else {
        let b0 = b.subrange(0, b.len() - 1);
        assert(decreases_to!(b => b[b.len() - 1]));
        let added = match b[b.len() - 1] {
            Entry::File(_) => false,
            Entry::Dir(d) => holds_no_file(d@) && padded(a, b0),
        };
        if added {
            if let Entry::Dir(d) = b[b.len() - 1] {
                lemma_no_file_no_path(d@);
                lemma_empty_dirs_ignored(a, b0);
                assert(files_in(b) =~= files_in(b0));
            }
        } else {
            let a0 = a.subrange(0, a.len() - 1);
            lemma_empty_dirs_ignored(a0, b0);
            match (a[a.len() - 1], b[b.len() - 1]) {
                (Entry::File(p), Entry::File(q)) => {
                    assert(files_in(a) =~= files_in(b));
                },
                (Entry::Dir(c), Entry::Dir(d)) => {
                    lemma_empty_dirs_ignored(c@, d@);
                },
                _ => {},
            }
        }
    }
}

} // verus!
