//! The context pack: every supported UTF-8 document below the folder that
//! the user selected, ordered by path, concatenated under file headers and
//! fingerprinted with SHA-256.
//!
//! Walking the folder and reading the files is left to the caller, which
//! asks [`entry_action`] what to do with each directory entry and hands the
//! documents it found to [`load_context`].
use sha2::Digest;
use vstd::prelude::*;
use vstd::relations::*;
use vstd::utf8::encode_utf8;

use crate::order::{chars_less, chars_lt, chars_lt_fn, components, path_less, path_lt, lemma_chars_lt_strict_total, lemma_path_lt_strict_total};
use crate::prompts::{PI_PROMPT_VERSION, REALTIME_PROMPT_VERSION};
use crate::text::{eq_ignore_ascii_case, eq_ignore_case, lower_hex, lower_hex_string, push_char, push_str, chars_of, str_eq, owned};

verus! {

broadcast use {vstd::seq_lib::group_to_multiset_ensures, vstd::multiset::group_multiset_axioms};

/// Which answer lane a context pack is prepared for.
#[derive(Clone, Copy, PartialEq, Eq, Debug)]
pub enum ContextKind {
    Realtime,
    Pi,
}

/// Summary of a context pack.
#[derive(Clone, Debug)]
pub struct ContextInfo {
    pub version: String,
    pub hash: String,
    pub file_count: usize,
    pub byte_count: usize,
}

/// A context pack: its summary and the packed text.
#[derive(Clone, Debug)]
pub struct ContextPack {
    pub info: ContextInfo,
    pub text: String,
}

/// One document found below the context folder: its path relative to the
/// folder, component by component, and its contents.
#[derive(Clone, Debug)]
pub struct ContextFile {
    pub path: Vec<String>,
    pub contents: String,
}

/// What the folder walk does with one directory entry.
#[derive(Clone, Copy, PartialEq, Eq, Debug)]
pub enum EntryAction {
    Skip,
    Descend,
    Include,
}

/// A document as a pair of path components and contents.
pub type FileModel = (Seq<Seq<char>>, Seq<char>);

impl ContextFile {
    pub open spec fn model(self) -> FileModel {
        (components(self.path@), self.contents@)
    }
}

/// The models of a list of documents.
pub open spec fn file_models(files: Seq<ContextFile>) -> Seq<FileModel> {
    files.map_values(|f: ContextFile| f.model())
}

// ---------------------------------------------------------------------------
// Specification of the pack
// ---------------------------------------------------------------------------

/// The version string of a pack.
pub open spec fn version_of(kind: ContextKind) -> Seq<char> {
    match kind {
        ContextKind::Realtime => "context-realtime-v1+"@ + REALTIME_PROMPT_VERSION@,
        ContextKind::Pi => "context-pi-v1+"@ + PI_PROMPT_VERSION@,
    }
}

/// A relative path as it is displayed: its components joined by `/`.
pub open spec fn relative_display(path: Seq<Seq<char>>) -> Seq<char>
    decreases path.len(),
{
    if path.len() == 0 {
        seq![]
    } else if path.len() == 1 {
        path[0]
    } else {
        relative_display(path.drop_last()) + seq!['/'] + path.last()
    }
}

/// The packed text of documents, in the order given.
pub open spec fn pack_text(files: Seq<FileModel>) -> Seq<char>
    decreases files.len(),
{
    if files.len() == 0 {
        seq![]
    } else {
        pack_text(files.drop_last()) + "\n\n===== FILE: "@ + relative_display(files.last().0)
            + " =====\n"@ + files.last().1
    }
}

/// The bytes that the fingerprint covers after the version: for each
/// document its UTF-8 relative path, a zero byte, its UTF-8 contents and a
/// zero byte.
pub open spec fn hash_body(files: Seq<FileModel>) -> Seq<u8>
    decreases files.len(),
{
    if files.len() == 0 {
        seq![]
    } else {
        hash_body(files.drop_last()) + encode_utf8(relative_display(files.last().0)) + seq![0u8]
            + encode_utf8(files.last().1) + seq![0u8]
    }
}

/// The bytes that the fingerprint of a pack covers.
pub open spec fn hash_input(version: Seq<char>, files: Seq<FileModel>) -> Seq<u8> {
    encode_utf8(version) + hash_body(files)
}

/// The order in which documents are packed: by path, then by contents.
pub open spec fn model_lt(a: FileModel, b: FileModel) -> bool {
    path_lt(a.0, b.0) || (a.0 == b.0 && chars_lt(a.1, b.1))
}

/// The non-strict packing order, as a function value.
pub open spec fn model_le() -> spec_fn(FileModel, FileModel) -> bool {
    |a: FileModel, b: FileModel| model_lt(a, b) || a == b
}

/// Documents in packing order.
pub open spec fn packing_order(files: Seq<FileModel>) -> Seq<FileModel> {
    files.sort_by(model_le())
}

/// `p` is the pack of `files` (in any order) for a lane with the given version.
pub open spec fn is_pack_of(p: ContextPack, version: Seq<char>, files: Seq<FileModel>) -> bool {
    let sorted = packing_order(files);
    &&& p.info.version@ == version
    &&& p.text@ == pack_text(sorted)
    &&& p.info.hash@ == lower_hex(sha256_digest(hash_input(version, sorted)))
    &&& p.info.hash@.len() == 64
    &&& p.info.file_count == files.len()
    &&& p.info.byte_count == encode_utf8(p.text@).len() as usize
}

/// The message when the selected folder is not a directory.
pub open spec fn not_a_directory_message(root: Seq<char>) -> Seq<char> {
    "Context folder does not exist or is not a directory: "@ + root
}

/// The message when the folder holds no supported document.
pub open spec fn no_documents_message(root: Seq<char>) -> Seq<char> {
    "No supported context documents were found in "@ + root
        + ". Add UTF-8 Markdown, text, JSON, YAML, TOML, RST, or CSV files anywhere inside this folder."@
}

// ---------------------------------------------------------------------------
// SHA-256
// ---------------------------------------------------------------------------

/// The SHA-256 digest of a byte sequence.
pub uninterp spec fn sha256_digest(data: Seq<u8>) -> Seq<u8>;

/// `sha2::Sha256::digest`: the SHA-256 digest of `data`, 32 bytes long
/// (the output size of `Sha256`). Its value is named, not computed here.
#[verifier::external_body]
fn sha256(data: &[u8]) -> (d: Vec<u8>)
    ensures
        d@ == sha256_digest(data@),
        d@.len() == 32,
{
    sha2::Sha256::digest(data).to_vec()
}

// ---------------------------------------------------------------------------
// Ordering proofs
// ---------------------------------------------------------------------------

/// The packing order is a total order.
pub proof fn lemma_model_le_total()
    ensures
        total_ordering(model_le()),
{
    lemma_path_lt_strict_total();
    lemma_chars_lt_strict_total();
    let le = model_le();
    let pl = |a: Seq<Seq<char>>, b: Seq<Seq<char>>| path_lt(a, b);
    let cl = chars_lt_fn();
    assert forall|a: FileModel, b: FileModel| #[trigger] le(a, b) && #[trigger] le(b, a) implies a == b by {
        if a != b {
            assert(model_lt(a, b) && model_lt(b, a));
            assert(pl(a.0, b.0) || a.0 == b.0);
            assert(pl(b.0, a.0) || a.0 == b.0);
            if a.0 == b.0 {
                assert(cl(a.1, b.1) && cl(b.1, a.1));
            } else {
                assert(pl(a.0, b.0) && pl(b.0, a.0));
            }
        }
    }
    assert forall|a: FileModel, b: FileModel, c: FileModel| #[trigger] le(a, b) && #[trigger] le(b, c) implies le(a, c) by {
        if a != b && b != c {
            assert(model_lt(a, b) && model_lt(b, c));
            if pl(a.0, b.0) {
                if pl(b.0, c.0) {
                    assert(pl(a.0, c.0));
                }
            } else if pl(b.0, c.0) {
            } else {
                assert(cl(a.1, b.1) && cl(b.1, c.1));
                assert(cl(a.1, c.1));
            }
        }
    }
    assert forall|a: FileModel, b: FileModel| #[trigger] le(a, b) || #[trigger] le(b, a) by {
        if a != b {
            if a.0 != b.0 {
                assert(pl(a.0, b.0) || pl(b.0, a.0));
            } else {
                assert(a.1 != b.1);
                assert(cl(a.1, b.1) || cl(b.1, a.1));
            }
        }
    }
}

/// A pack depends on the set of documents found, not on the order in
/// which the folder walk found them.
pub proof fn lemma_packing_order_ignores_discovery_order(a: Seq<FileModel>, b: Seq<FileModel>)
    requires
        a.to_multiset() == b.to_multiset(),
    ensures
        packing_order(a) == packing_order(b),
{
    lemma_model_le_total();
    a.lemma_sort_by_ensures(model_le());
    b.lemma_sort_by_ensures(model_le());
    vstd::seq_lib::lemma_sorted_unique(packing_order(a), packing_order(b), model_le());
}

/// The fingerprint input of a list of documents is made of the parts of
/// its documents, in order: the input of a concatenation is the
/// concatenation of the inputs.
pub proof fn lemma_hash_body_append(a: Seq<FileModel>, b: Seq<FileModel>)
    ensures
        hash_body(a + b) == hash_body(a) + hash_body(b),
    decreases b.len(),
{
    if b.len() == 0 {
        assert(a + b =~= a);
        assert(hash_body(a) + hash_body(b) =~= hash_body(a));
    } else {
        lemma_hash_body_append(a, b.drop_last());
        assert((a + b).drop_last() =~= a + b.drop_last());
        assert((a + b).last() == b.last());
        assert(hash_body(a + b) =~= hash_body(a) + hash_body(b));
    }
}

proof fn lemma_hash_body_single(f: FileModel)
    ensures
        hash_body(seq![f]) == encode_utf8(relative_display(f.0)) + seq![0u8] + encode_utf8(f.1)
            + seq![0u8],
{
    assert(seq![f].drop_last() =~= Seq::<FileModel>::empty());
    assert(seq![f].last() == f);
    assert(hash_body(Seq::<FileModel>::empty()) =~= Seq::<u8>::empty());
    assert(hash_body(seq![f]) =~= encode_utf8(relative_display(f.0)) + seq![0u8] + encode_utf8(f.1)
        + seq![0u8]);
}

proof fn lemma_hash_body_split(files: Seq<FileModel>, i: int)
    requires
        0 <= i < files.len(),
    ensures
        hash_body(files) == hash_body(files.take(i)) + hash_body(seq![files[i]]) + hash_body(
            files.skip(i + 1),
        ),
{
    let pre = files.take(i);
    let post = files.skip(i + 1);
    assert(files =~= pre + seq![files[i]] + post);
    lemma_hash_body_append(pre + seq![files[i]], post);
    lemma_hash_body_append(pre, seq![files[i]]);
}

/// The fingerprint covers every document: one document contributes its
/// UTF-8 path, a zero byte, its UTF-8 contents and a zero byte; the input
/// of a list is the version followed by the parts of all its documents in
/// order; and editing the contents of any one document changes the input,
/// so the fingerprint of an edited folder is taken over different bytes.
pub proof fn lemma_fingerprint_covers_every_document(
    version: Seq<char>,
    files: Seq<FileModel>,
    i: int,
    edited: Seq<char>,
)
    requires
        0 <= i < files.len(),
        edited != files[i].1,
    ensures
        hash_body(seq![files[i]]) == encode_utf8(relative_display(files[i].0)) + seq![0u8]
            + encode_utf8(files[i].1) + seq![0u8],
        hash_input(version, files) == encode_utf8(version) + hash_body(files.take(i)) + hash_body(
            seq![files[i]],
        ) + hash_body(files.skip(i + 1)),
        hash_input(version, files) != hash_input(version, files.update(i, (files[i].0, edited))),
{
    let f = files[i];
    let g = (f.0, edited);
    let other = files.update(i, g);
    lemma_hash_body_single(f);
    lemma_hash_body_single(g);
    lemma_hash_body_split(files, i);
    lemma_hash_body_split(other, i);
    assert(other.take(i) =~= files.take(i));
    assert(other.skip(i + 1) =~= files.skip(i + 1));
    if hash_input(version, files) == hash_input(version, other) {
        lemma_middle_bytes_equal(
            encode_utf8(version),
            hash_body(files.take(i)),
            encode_utf8(relative_display(f.0)) + seq![0u8],
            encode_utf8(f.1),
            encode_utf8(edited),
            seq![0u8],
            hash_body(files.skip(i + 1)),
        );
        vstd::utf8::encode_utf8_decode_utf8(f.1);
        vstd::utf8::encode_utf8_decode_utf8(edited);
    }
}

proof fn lemma_middle_bytes_equal(
    e: Seq<u8>,
    p: Seq<u8>,
    b: Seq<u8>,
    x: Seq<u8>,
    y: Seq<u8>,
    z: Seq<u8>,
    q: Seq<u8>,
)
    requires
        e + (p + (b + x + z) + q) == e + (p + (b + y + z) + q),
    ensures
        x == y,
{
    let l = e + (p + (b + x + z) + q);
    let r = e + (p + (b + y + z) + q);
    let start: int = (e.len() + p.len() + b.len()) as int;
    assert(l.len() == r.len());
    assert(x.len() == y.len());
    assert(l.subrange(start, start + x.len() as int) =~= x);
    assert(r.subrange(start, start + y.len() as int) =~= y);
}

/// Loading the same documents gives the same pack whatever order the folder
/// walk found them in: the same text, fingerprint and counts.
pub proof fn lemma_pack_is_deterministic(
    p: ContextPack,
    q: ContextPack,
    version: Seq<char>,
    a: Seq<FileModel>,
    b: Seq<FileModel>,
)
    requires
        is_pack_of(p, version, a),
        is_pack_of(q, version, b),
        a.to_multiset() == b.to_multiset(),
    ensures
        p.text@ == q.text@,
        p.info.version@ == q.info.version@,
        p.info.hash@ == q.info.hash@,
        p.info.file_count == q.info.file_count,
        p.info.byte_count == q.info.byte_count,
{
    lemma_packing_order_ignores_discovery_order(a, b);
    vstd::seq_lib::to_multiset_len(a);
    vstd::seq_lib::to_multiset_len(b);
}

// ---------------------------------------------------------------------------
// Executable functions
// ---------------------------------------------------------------------------

/// The version string of a pack for the given lane.
pub fn context_version(kind: ContextKind) -> (v: String)
    ensures
        v@ == version_of(kind),
{
    match kind {
        ContextKind::Realtime => {
            let mut v = String::from_str("context-realtime-v1+");
            push_str(&mut v, REALTIME_PROMPT_VERSION);
            v
        },
        ContextKind::Pi => {
            let mut v = String::from_str("context-pi-v1+");
            push_str(&mut v, PI_PROMPT_VERSION);
            v
        },
    }
}

/// The relative path of a document as it is displayed.
pub fn relative_path_display(path: &Vec<String>) -> (s: String)
    ensures
        s@ == relative_display(components(path@)),
{
    let ghost c = components(path@);
    let mut s = String::new();
    let mut i: usize = 0;
    while i < path.len()
        invariant
            i <= path@.len() == c.len(),
            c == components(path@),
            s@ == relative_display(c.subrange(0, i as int)),
        decreases path.len() - i,
    {
        proof {
            let p = c.subrange(0, i + 1);
            assert(p.drop_last() == c.subrange(0, i as int));
            assert(p.last() == path@[i as int]@);
            if i == 0 {
                assert(relative_display(c.subrange(0, 0)) == Seq::<char>::empty());
            }
        }
        if i > 0 {
            push_char(&mut s, '/');
        }
        push_str(&mut s, path[i].as_str());
        proof {
            if i == 0 {
                assert(s@ == path@[0]@);
            }
        }
        i += 1;
    }
    proof {
        assert(c.subrange(0, c.len() as int) == c);
    }
    s
}

/// Appends bytes to a buffer.
fn append_bytes(v: &mut Vec<u8>, b: &[u8])
    ensures
        final(v)@ == old(v)@ + b@,
{
    let mut i: usize = 0;
    while i < b.len()
        invariant
            i <= b@.len(),
            v@ == old(v)@ + b@.subrange(0, i as int),
        decreases b.len() - i,
    {
        v.push(b[i]);
        proof {
            assert(b@.subrange(0, i + 1) == b@.subrange(0, i as int).push(b@[i as int]));
        }
        i += 1;
    }
    proof {
        assert(b@.subrange(0, b@.len() as int) == b@);
    }
}

/// Packs documents in the order given: the text under file headers, the
/// fingerprint over the version and every path and content, and the counts.
pub fn build_pack(version: &str, files: &Vec<ContextFile>) -> (p: ContextPack)
    ensures
        p.info.version@ == version@,
        p.text@ == pack_text(file_models(files@)),
        p.info.hash@ == lower_hex(sha256_digest(hash_input(version@, file_models(files@)))),
        p.info.hash@.len() == 64,
        p.info.file_count == files@.len(),
        p.info.byte_count == encode_utf8(p.text@).len() as usize,
{
    let ghost m = file_models(files@);
    let mut text = String::new();
    let mut input: Vec<u8> = Vec::new();
    append_bytes(&mut input, version.as_bytes());
    let mut i: usize = 0;
    while i < files.len()
        invariant
            i <= files@.len() == m.len(),
            m == file_models(files@),
            text@ == pack_text(m.subrange(0, i as int)),
            input@ == encode_utf8(version@) + hash_body(m.subrange(0, i as int)),
        decreases files.len() - i,
    {
        let f = &files[i];
        let relative = relative_path_display(&f.path);
        push_str(&mut text, "\n\n===== FILE: ");
        push_str(&mut text, relative.as_str());
        push_str(&mut text, " =====\n");
        push_str(&mut text, f.contents.as_str());
        append_bytes(&mut input, relative.as_str().as_bytes());
        input.push(0u8);
        append_bytes(&mut input, f.contents.as_str().as_bytes());
        input.push(0u8);
        proof {
            let p = m.subrange(0, i + 1);
            assert(p.drop_last() == m.subrange(0, i as int));
            assert(p.last() == f.model());
            assert(text@ == pack_text(p));
            assert(input@ == encode_utf8(version@) + hash_body(p));
        }
        i += 1;
    }
    proof {
        assert(m.subrange(0, m.len() as int) == m);
    }
    let digest = sha256(input.as_slice());
    let hash = lower_hex_string(digest.as_slice());
    let byte_count = text.as_str().len();
    ContextPack {
        info: ContextInfo { version: owned(version), hash, file_count: files.len(), byte_count },
        text,
    }
}

/// Compares two documents in packing order.
fn file_less(a: &ContextFile, b: &ContextFile) -> (r: bool)
    ensures
        r == model_lt(a.model(), b.model()),
{
    if path_less(&a.path, &b.path) {
        return true;
    }
    if path_less(&b.path, &a.path) {
        proof {
            lemma_path_lt_strict_total();
            let pl = |x: Seq<Seq<char>>, y: Seq<Seq<char>>| path_lt(x, y);
            assert(pl(components(b.path@), components(a.path@)));
        }
        return false;
    }
    proof {
        lemma_path_lt_strict_total();
        let pl = |x: Seq<Seq<char>>, y: Seq<Seq<char>>| path_lt(x, y);
        if components(a.path@) != components(b.path@) {
            assert(pl(components(a.path@), components(b.path@)) || pl(
                components(b.path@),
                components(a.path@),
            ));
        }
    }
    let x = chars_of(a.contents.as_str());
    let y = chars_of(b.contents.as_str());
    chars_less(x.as_slice(), y.as_slice())
}

/// Sorts documents into packing order.
pub fn sort_files(files: Vec<ContextFile>) -> (r: Vec<ContextFile>)
    ensures
        file_models(r@) == packing_order(file_models(files@)),
{
    proof {
        lemma_model_le_total();
    }
    let ghost all = file_models(files@);
    let mut rest = files;
    let mut out: Vec<ContextFile> = Vec::new();
    while rest.len() > 0
        invariant
            total_ordering(model_le()),
            sorted_by(file_models(out@), model_le()),
            file_models(out@).to_multiset().add(file_models(rest@).to_multiset()) == all.to_multiset(),
        decreases rest.len(),
    {
        let ghost old_rest = rest@;
        let ghost old_out = file_models(out@);
        let f = rest.pop().unwrap();
        proof {
            assert(old_rest == rest@.push(f));
            assert(file_models(old_rest) == file_models(rest@).push(f.model()));
        }
        let mut j: usize = 0;
        while j < out.len() && !file_less(&f, &out[j])
            invariant
                j <= out@.len(),
                file_models(out@) == old_out,
                forall|k: int| 0 <= k < j ==> !model_lt(f.model(), #[trigger] old_out[k]),
            decreases out.len() - j,
        {
            j += 1;
        }
        let ghost fm = f.model();
        out.insert(j, f);
        proof {
            let le = model_le();
            let new_out = file_models(out@);
            assert(new_out == old_out.insert(j as int, fm));
            assert forall|k: int| 0 <= k < j implies #[trigger] le(old_out[k], fm) by {
                if old_out[k] != fm {
                    assert(le(old_out[k], fm) || le(fm, old_out[k]));
                }
            }
            if j < old_out.len() {
                assert(model_lt(fm, old_out[j as int]));
                assert(le(fm, old_out[j as int]));
            }
            assert forall|a: int, b: int| 0 <= a < b < new_out.len() implies #[trigger] le(new_out[a], new_out[b]) by {
                if b < j {
                    assert(le(old_out[a], old_out[b]));
                } else if b == j {
                    assert(le(old_out[a], fm));
                } else if a == j {
                    assert(new_out[b] == old_out[b - 1]);
                    if b - 1 > j {
                        assert(le(old_out[j as int], old_out[b - 1]));
                    }
                } else if a < j {
                    assert(le(old_out[a], fm));
                    assert(le(fm, old_out[j as int]));
                    if b - 1 > j {
                        assert(le(old_out[j as int], old_out[b - 1]));
                    }
                    assert(le(old_out[a], old_out[j as int]));
                } else {
                    assert(le(old_out[a - 1], old_out[b - 1]));
                }
            }
            vstd::seq_lib::to_multiset_insert(old_out, j as int, fm);
            assert(file_models(rest@).push(fm).to_multiset() == file_models(rest@).to_multiset().insert(fm));
        }
    }
    proof {
        let r = file_models(out@);
        assert(file_models(rest@).to_multiset() =~= vstd::multiset::Multiset::empty());
        assert(r.to_multiset() =~= all.to_multiset());
        all.lemma_sort_by_ensures(model_le());
        vstd::seq_lib::lemma_sorted_unique(r, packing_order(all), model_le());
    }
    out
}

/// Whether a file name has one of the supported text extensions, compared
/// without regard to ASCII case.
pub open spec fn supported_extension(e: Seq<char>) -> bool {
    ||| eq_ignore_ascii_case(e, "md"@)
    ||| eq_ignore_ascii_case(e, "markdown"@)
    ||| eq_ignore_ascii_case(e, "txt"@)
    ||| eq_ignore_ascii_case(e, "json"@)
    ||| eq_ignore_ascii_case(e, "yaml"@)
    ||| eq_ignore_ascii_case(e, "yml"@)
    ||| eq_ignore_ascii_case(e, "toml"@)
    ||| eq_ignore_ascii_case(e, "rst"@)
    ||| eq_ignore_ascii_case(e, "csv"@)
}

/// Index of the last occurrence of `c` in `s`, or -1.
pub open spec fn last_index_of(s: Seq<char>, c: char) -> int
    decreases s.len(),
{
    if s.len() == 0 {
        -1
    } else if s.last() == c {
        s.len() - 1
    } else {
        last_index_of(s.drop_last(), c)
    }
}

/// The extension of a file name, as `Path::extension` gives it: the text
/// after the last dot, unless the name has no dot, starts with its only
/// dot, or is `..`.
pub open spec fn extension(name: Seq<char>) -> Option<Seq<char>> {
    let d = last_index_of(name, '.');
    if name == seq!['.', '.'] || d <= 0 {
        None
    } else {
        Some(name.subrange(d + 1, name.len() as int))
    }
}

/// The last component of a path, as `std::path::Path::file_name` gives it.
pub uninterp spec fn path_file_name(path: Seq<char>) -> Option<Seq<char>>;

/// `std::path::Path::file_name` of a path given as text. Its value is
/// named, not computed here.
#[verifier::external_body]
fn file_name_of(path: &str) -> (r: Option<String>)
    ensures
        match path_file_name(path@) {
            Some(n) => r matches Some(s) && s@ == n,
            None => r is None,
        },
{
    match std::path::Path::new(path).file_name() {
        Some(n) => Some(n.to_string_lossy().into_owned()),
        None => None,
    }
}

/// The extension of a path, as `Path::extension` gives it: the extension of
/// its last component.
pub open spec fn path_extension(path: Seq<char>) -> Option<Seq<char>> {
    match path_file_name(path) {
        Some(name) => extension(name),
        None => None,
    }
}

/// Whether a path names a supported text document.
pub open spec fn is_supported_path(path: Seq<char>) -> bool {
    match path_extension(path) {
        Some(e) => supported_extension(e),
        None => false,
    }
}

/// Index of the last occurrence of `c` in `v`, if any.
pub fn last_index(v: &[char], c: char) -> (r: Option<usize>)
    ensures
        match r {
            Some(i) => i as int == last_index_of(v@, c) && i < v@.len(),
            None => last_index_of(v@, c) == -1,
        },
{
    let mut j: usize = v.len();
    proof {
        assert(v@.subrange(0, v@.len() as int) == v@);
    }
    while j > 0 && v[j - 1] != c
        invariant
            j <= v@.len(),
            last_index_of(v@, c) == last_index_of(v@.subrange(0, j as int), c),
        decreases j,
    {
        proof {
            let p = v@.subrange(0, j as int);
            assert(p.drop_last() == v@.subrange(0, j - 1));
        }
        j -= 1;
    }
    proof {
        assert(v@.subrange(0, v@.len() as int) == v@);
        if j > 0 {
            let p = v@.subrange(0, j as int);
            assert(p.last() == v@[j - 1]);
        }
    }
    if j == 0 {
        None
    } else {
        Some(j - 1)
    }
}

/// The extension of a path, as `Path::extension` gives it: that of its last
/// component.
pub fn extension_of(path: &str) -> (r: Option<String>)
    ensures
        match path_extension(path@) {
            Some(e) => r matches Some(s) && s@ == e,
            None => r is None,
        },
{
    match file_name_of(path) {
        Some(name) => name_extension(name.as_str()),
        None => None,
    }
}

/// The extension of a file name.
fn name_extension(name: &str) -> (r: Option<String>)
    ensures
        match extension(name@) {
            Some(e) => r matches Some(s) && s@ == e,
            None => r is None,
        },
{
    let v = chars_of(name);
    let is_parent = v.len() == 2 && v[0] == '.' && v[1] == '.';
    proof {
        if v@ == seq!['.', '.'] {
            assert(v@[0] == '.' && v@[1] == '.');
        }
        if is_parent {
            assert(v@ =~= seq!['.', '.']);
        }
    }
    if is_parent {
        return None;
    }
    match last_index(v.as_slice(), '.') {
        Some(d) => {
            if d == 0 {
                None
            } else {
                Some(crate::text::string_of(v.as_slice(), d + 1, v.len()))
            }
        },
        None => None,
    }
}

/// Whether a path names a supported text document: its extension is one of
/// `md`, `markdown`, `txt`, `json`, `yaml`, `yml`, `toml`, `rst` or `csv`,
/// in any ASCII case.
pub fn is_supported_text_file(path: &str) -> (r: bool)
    ensures
        r == is_supported_path(path@),
{
    match extension_of(path) {
        None => false,
        Some(e) => {
            let e = chars_of(e.as_str());
            let e = e.as_slice();
            eq_ignore_case(e, chars_of("md").as_slice()) || eq_ignore_case(
                e,
                chars_of("markdown").as_slice(),
            ) || eq_ignore_case(e, chars_of("txt").as_slice()) || eq_ignore_case(
                e,
                chars_of("json").as_slice(),
            ) || eq_ignore_case(e, chars_of("yaml").as_slice()) || eq_ignore_case(
                e,
                chars_of("yml").as_slice(),
            ) || eq_ignore_case(e, chars_of("toml").as_slice()) || eq_ignore_case(
                e,
                chars_of("rst").as_slice(),
            ) || eq_ignore_case(e, chars_of("csv").as_slice())
        },
    }
}

/// Directories that the folder walk never enters.
pub open spec fn is_ignored_directory(name: Seq<char>) -> bool {
    ||| name == ".git"@
    ||| name == "node_modules"@
    ||| name == "target"@
    ||| name == "dist"@
    ||| name == "build"@
    ||| name == ".next"@
    ||| name == ".cache"@
}

/// What the folder walk does with an entry: symbolic links and hidden
/// entries are skipped, directories are entered unless they hold version
/// control or build output, and regular files are taken when their
/// extension is supported.
pub open spec fn entry_action_of(name: Seq<char>, is_symlink: bool, is_dir: bool, is_file: bool) -> EntryAction {
    if is_symlink || (name.len() > 0 && name[0] == '.') {
        EntryAction::Skip
    } else if is_dir {
        if is_ignored_directory(name) {
            EntryAction::Skip
        } else {
            EntryAction::Descend
        }
    } else if is_file && is_supported_path(name) {
        EntryAction::Include
    } else {
        EntryAction::Skip
    }
}

/// Decides what the folder walk does with a directory entry of the given
/// name and type.
pub fn entry_action(name: &str, is_symlink: bool, is_dir: bool, is_file: bool) -> (a: EntryAction)
    ensures
        a == entry_action_of(name@, is_symlink, is_dir, is_file),
{
    let v = chars_of(name);
    if is_symlink || (v.len() > 0 && v[0] == '.') {
        return EntryAction::Skip;
    }
    if is_dir {
        let ignored = str_eq(name, ".git") || str_eq(name, "node_modules") || str_eq(name, "target")
            || str_eq(name, "dist") || str_eq(name, "build") || str_eq(name, ".next") || str_eq(
            name,
            ".cache",
        );
        if ignored {
            EntryAction::Skip
        } else {
            EntryAction::Descend
        }
    } else if is_file && is_supported_text_file(name) {
        EntryAction::Include
    } else {
        EntryAction::Skip
    }
}

/// Packs the documents found below the selected folder for one lane.
///
/// `root` is the folder as it is displayed, `root_is_dir` whether it is a
/// directory, and `files` the documents that the walk found (in any order).
/// The documents are packed in path order. A folder that is not a directory,
/// or that holds no supported document, is refused.
pub fn load_context(root: &str, root_is_dir: bool, kind: ContextKind, files: Vec<ContextFile>) -> (r: Result<ContextPack, String>)
    ensures
        !root_is_dir ==> (r matches Err(e) && e@ == not_a_directory_message(root@)),
        root_is_dir && files@.len() == 0 ==> (r matches Err(e) && e@ == no_documents_message(root@)),
        root_is_dir && files@.len() > 0 ==> (r matches Ok(p) && is_pack_of(p, version_of(kind), file_models(files@))),
{
    if !root_is_dir {
        let mut e = String::from_str("Context folder does not exist or is not a directory: ");
        push_str(&mut e, root);
        return Err(e);
    }
    if files.len() == 0 {
        let mut e = String::from_str("No supported context documents were found in ");
        push_str(&mut e, root);
        push_str(
            &mut e,
            ". Add UTF-8 Markdown, text, JSON, YAML, TOML, RST, or CSV files anywhere inside this folder.",
        );
        return Err(e);
    }
    let ghost models = file_models(files@);
    let version = context_version(kind);
    let sorted = sort_files(files);
    proof {
        lemma_model_le_total();
        models.lemma_sort_by_ensures(model_le());
        assert(packing_order(models).len() == models.len()) by {
            vstd::seq_lib::to_multiset_len(models);
            vstd::seq_lib::to_multiset_len(packing_order(models));
        }
    }
    Ok(build_pack(version.as_str(), &sorted))
}

/// The fingerprint input of a pack built from typed context: the version,
/// a zero byte and the text.
pub open spec fn direct_hash_input(version: Seq<char>, text: Seq<char>) -> Seq<u8> {
    encode_utf8(version) + seq![0u8] + encode_utf8(text)
}

/// Packs context that the user typed for one lane: the text is the typed
/// context without surrounding white space, counted as one document when it
/// is not empty.
pub fn build_prompt_context(direct_context: &str, kind: ContextKind) -> (p: ContextPack)
    ensures
        p.info.version@ == version_of(kind),
        p.text@ == crate::text::trim(direct_context@),
        p.info.hash@ == lower_hex(sha256_digest(direct_hash_input(version_of(kind), p.text@))),
        p.info.hash@.len() == 64,
        p.info.file_count == (if p.text@.len() == 0 { 0usize } else { 1usize }),
        p.info.byte_count == encode_utf8(p.text@).len() as usize,
{
    let version = context_version(kind);
    let text = crate::text::trim_str(direct_context);
    let mut input: Vec<u8> = Vec::new();
    append_bytes(&mut input, version.as_str().as_bytes());
    input.push(0u8);
    append_bytes(&mut input, text.as_str().as_bytes());
    assert(input@ =~= direct_hash_input(version@, text@));
    let digest = sha256(input.as_slice());
    let hash = lower_hex_string(digest.as_slice());
    let count = chars_of(text.as_str()).len();
    let byte_count = text.as_str().len();
    ContextPack {
        info: ContextInfo { version, hash, file_count: if count == 0 { 0 } else { 1 }, byte_count },
        text,
    }
}

} // verus!
