//! Tagged files and the per-file query verdict.
//!
//! The index builder outside the library walks a directory, reads each
//! file's first line and keeps the files whose line parses as a tagline.
//! The library decides, for each such record, whether its tags satisfy the
//! query: one parse tree is resolved afresh against every file's tag set, so
//! no state is shared between files.

use vstd::prelude::*;

use crate::ast::{construct_query_ast, evaluate_ast, spec_eval, spec_resolve};
use crate::query::{QueryTree, QueryTreeView};
use crate::string_views;

verus! {

/// `TaggedFile` is a file that contains tags. The tags keep their declared
/// order, which matters only for display: matching treats them as a set.
#[derive(Debug)]
pub struct TaggedFile {
    pub path: String,
    pub tags: Vec<String>,
}

/// The view of a tagged file: its path and tags as sequences of characters.
pub struct TaggedFileView {
    pub path: Seq<char>,
    pub tags: Seq<Seq<char>>,
}

impl View for TaggedFile {
    type V = TaggedFileView;

    open spec fn view(&self) -> TaggedFileView {
        TaggedFileView { path: self.path@, tags: string_views(self.tags@) }
    }
}

impl Clone for TaggedFile {
    /// A clone carries the same path and the same tags.
    fn clone(&self) -> (res: Self)
        ensures
            res@ == self@,
    {
        let path = self.path.clone();
        let tags = self.tags.clone();
        proof {
            assert(tags@ =~= self.tags@);
        }
        TaggedFile { path, tags }
    }
}

/// The views of a sequence of tagged files.
pub open spec fn file_views(fs: Seq<TaggedFile>) -> Seq<TaggedFileView> {
    fs.map_values(|f: TaggedFile| f@)
}

/// Whether the tag set `tags` satisfies the query tree `t`: the truth of the
/// tree resolved against `tags`.
pub open spec fn spec_matches(t: QueryTreeView, tags: Seq<Seq<char>>) -> bool {
    spec_eval(spec_resolve(t, tags))
}

/// The files whose tags satisfy `t`, in their given order.
pub open spec fn spec_filter_files(t: QueryTreeView, fs: Seq<TaggedFileView>) -> Seq<
    TaggedFileView,
> {
    fs.filter(|fv: TaggedFileView| spec_matches(t, fv.tags))
}

/// The verdict for one (query, file) pair: resolves the parse tree against
/// the file's tags and evaluates the resolved tree.
pub fn matches_query(tree: &QueryTree, file: &TaggedFile) -> (b: bool)
    ensures
        b == spec_matches(tree@, file@.tags),
{
    let ast = construct_query_ast(tree, &file.tags);
    evaluate_ast(ast)
}

/// Keeps exactly the files whose tags satisfy the query, in input order.
pub fn filter_files(tree: &QueryTree, files: &Vec<TaggedFile>) -> (r: Vec<TaggedFile>)
    ensures
        file_views(r@) == spec_filter_files(tree@, file_views(files@)),
{
    let ghost fvs = file_views(files@);
    let mut r: Vec<TaggedFile> = Vec::new();
    proof {
        assert(file_views(r@) =~= Seq::<TaggedFileView>::empty());
        assert(fvs.take(0) =~= Seq::<TaggedFileView>::empty());
    }
    let n = files.len();
    let mut k: usize = 0;
    while k < n
        invariant
            k <= n,
            n == files@.len(),
            fvs == file_views(files@),
            file_views(r@) == spec_filter_files(tree@, fvs.take(k as int)),
        decreases n - k,
    {
        let ghost prev = r@;
        if matches_query(tree, &files[k]) {
            r.push(files[k].clone());
        }
        proof {
            reveal_with_fuel(Seq::<_>::filter, 2);
            assert(fvs.take(k + 1).drop_last() =~= fvs.take(k as int));
            assert(fvs.take(k + 1).last() == fvs[k as int]);
            assert(fvs[k as int] == files@[k as int]@);
            if spec_matches(tree@, files@[k as int]@.tags) {
                assert(file_views(r@) =~= file_views(prev).push(files@[k as int]@));
                assert(spec_filter_files(tree@, fvs.take(k + 1)) == spec_filter_files(
                    tree@,
                    fvs.take(k as int),
                ).push(fvs[k as int]));
            } else {
                assert(file_views(r@) =~= file_views(prev));
                assert(spec_filter_files(tree@, fvs.take(k + 1)) == spec_filter_files(
                    tree@,
                    fvs.take(k as int),
                ));
            }
        }
        k = k + 1;
    }
    proof {
        assert(fvs.take(n as int) =~= fvs);
    }
    r
}

} // verus!
