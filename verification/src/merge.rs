//! Candidate file entries and the byte-level merge: the output is the
//! exact concatenation, in selection order, of the selected files' bytes.

use vstd::prelude::*;

verus! {

/// One selected file: its path, and its byte contents once loaded.
pub struct FileToMerge {
    pub file_path: String,
    pub file_content: Vec<u8>,
}

impl FileToMerge {
    /// A freshly selected entry, not yet loaded: its content is empty.
    pub fn new(file_path: String) -> (f: FileToMerge)
        ensures
            f.file_path@ == file_path@,
            f.file_content@ == Seq::<u8>::empty(),
    {
        let file_content: Vec<u8> = Vec::new();
        FileToMerge { file_path, file_content }
    }

    /// Attaches the bytes read from the file; the path is unchanged.
    pub fn set_content(&mut self, content: Vec<u8>)
        ensures
            final(self).file_path@ == old(self).file_path@,
            final(self).file_content@ == content@,
    {
        self.file_content = content;
    }
}

/// The concatenation, in order, of the entries' byte contents.
pub open spec fn concat_contents(files: Seq<FileToMerge>) -> Seq<u8>
    decreases files.len(),
{
    if files.len() == 0 {
        Seq::empty()
    } else {
        concat_contents(files.drop_last()) + files.last().file_content@
    }
}

/// Merges the loaded entries: the result is the exact concatenation, in
/// selection order, of their raw bytes, with no delimiter or framing.
pub fn merge_contents(files: &Vec<FileToMerge>) -> (out: Vec<u8>)
    ensures
        out@ == concat_contents(files@),
{
    let mut out: Vec<u8> = Vec::new();
    let mut i: usize = 0;
    proof {
        assert(files@.take(0) =~= Seq::<FileToMerge>::empty());
        assert(out@ =~= concat_contents(files@.take(0)));
    }
    while i < files.len()
        invariant
            i <= files@.len(),
            out@ == concat_contents(files@.take(i as int)),
        decreases files@.len() - i,
    {
        let ghost before = out@;
        out.extend_from_slice(files[i].file_content.as_slice());
        proof {
            let taken = files@.take(i as int + 1);
            assert(taken.drop_last() =~= files@.take(i as int));
            assert(taken.last() == files@[i as int]);
            assert(out@ == before + files@[i as int].file_content@);
        }
        i = i + 1;
    }
    proof {
        assert(files@.take(files@.len() as int) =~= files@);
    }
    out
}

/// Merging a single entry yields exactly that entry's bytes; in
/// particular, one empty-content file merges to zero bytes, whatever was
/// loaded into other entries beforehand.
pub proof fn lemma_merge_single(files: Seq<FileToMerge>)
    requires
        files.len() == 1,
    ensures
        concat_contents(files) == files[0].file_content@,
{
    assert(concat_contents(files.drop_last()) == Seq::<u8>::empty());
    assert(Seq::<u8>::empty() + files[0].file_content@ =~= files[0].file_content@);
}

} // verus!
