//! Unpacking the downloaded release archive: a gzip-compressed tar stream is
//! turned into the list of entries it stores, each with its relative path,
//! its mode bits, its stored type and its contents or link target.
//! Decompression and tar decoding are done by outside crates behind trusted
//! wrappers; everything downstream works on the plain entry list, and only
//! entries that are safe to write below the working directory pass vetting.

use vstd::prelude::*;
use vstd::seq_lib::group_filter_ensures;
use crate::errors::UpdateError;
use crate::paths::{path_chars_safe, path_is_safe};

verus! {

/// The kind of one archive entry, decoded from the type byte its tar header
/// stores.
#[derive(Clone, Copy, PartialEq, Eq, Structural, Debug)]
pub enum EntryKind {
    File,
    Directory,
    Symlink,
    HardLink,
    /// A device, fifo or vendor extension: carried through, never written.
    Other,
}

/// The kind stored under a tar type byte: NUL or `'0'` is a regular file,
/// `'1'` a hard link, `'2'` a symlink, `'5'` a directory; `'7'` (contiguous
/// file) and `'S'` (sparse file, yielded with its expanded contents) are
/// treated as regular files, as tar extraction itself does.  Every other
/// byte is `Other`.
pub open spec fn kind_of_type_byte(b: u8) -> EntryKind {
    if b == 0 || b == 48 || b == 55 || b == 83 {
        EntryKind::File
    } else if b == 49 {
        EntryKind::HardLink
    } else if b == 50 {
        EntryKind::Symlink
    } else if b == 53 {
        EntryKind::Directory
    } else {
        EntryKind::Other
    }
}

/// Decodes a tar type byte into the kind of entry it stores.
pub fn entry_kind(b: u8) -> (r: EntryKind)
    ensures
        r == kind_of_type_byte(b),
{
    if b == 0 || b == 48 || b == 55 || b == 83 {
        EntryKind::File
    } else if b == 49 {
        EntryKind::HardLink
    } else if b == 50 {
        EntryKind::Symlink
    } else if b == 53 {
        EntryKind::Directory
    } else {
        EntryKind::Other
    }
}

/// One entry of the release archive: the relative path, the mode bits, the
/// stored type byte, the link target for link entries, and the contents.
#[derive(Debug, PartialEq, Eq)]
pub struct TarEntry {
    pub path: String,
    pub mode: u32,
    pub type_byte: u8,
    pub link_target: Option<String>,
    pub data: Vec<u8>,
}

/// The mathematical image of one archive entry.
pub struct TarEntryModel {
    pub path: Seq<char>,
    pub mode: u32,
    pub type_byte: u8,
    pub link_target: Option<Seq<char>>,
    pub data: Seq<u8>,
}

impl View for TarEntry {
    type V = TarEntryModel;

    open spec fn view(&self) -> TarEntryModel {
        TarEntryModel {
            path: self.path@,
            mode: self.mode,
            type_byte: self.type_byte,
            link_target: match self.link_target {
                Some(t) => Some(t@),
                None => None,
            },
            data: self.data@,
        }
    }
}

/// What gzip decompression yields on given bytes: the decompressed stream,
/// or nothing where the bytes are not a valid gzip stream.
pub uninterp spec fn gunzip_of(b: Seq<u8>) -> Option<Seq<u8>>;

/// What tar decoding yields on given bytes: the entry list of the stream,
/// or nothing where the bytes are not a well-formed tar stream.
pub uninterp spec fn tar_entries_of(b: Seq<u8>) -> Option<Seq<TarEntryModel>>;

/// The entry list stored in a gzip-compressed tar stream, where both layers
/// decode.
pub open spec fn entries_of_archive(b: Seq<u8>) -> Option<Seq<TarEntryModel>> {
    match gunzip_of(b) {
        Some(t) => tar_entries_of(t),
        None => None,
    }
}

/// Whether one decoded entry may be written below the working directory:
/// its path is safe, and a link entry also names a safe target.
pub open spec fn entry_model_safe(t: TarEntryModel) -> bool {
    &&& path_chars_safe(t.path)
    &&& match kind_of_type_byte(t.type_byte) {
        EntryKind::Symlink | EntryKind::HardLink => match t.link_target {
            Some(target) => path_chars_safe(target),
            None => false,
        },
        _ => true,
    }
}

/// Decides whether one decoded entry may be written below the working
/// directory.
pub fn entry_is_safe(t: &TarEntry) -> (r: bool)
    ensures
        r == entry_model_safe(t@),
{
    if !path_is_safe(t.path.as_str()) {
        return false;
    }
    let kind = entry_kind(t.type_byte);
    if kind == EntryKind::Symlink || kind == EntryKind::HardLink {
        match &t.link_target {
            Some(target) => path_is_safe(target.as_str()),
            None => false,
        }
    } else {
        true
    }
}

/// Relies on flate2's `GzDecoder` (via `std::io::Read::read_to_end`): gzip
/// decompression is a function of the input bytes alone, and reading fails
/// exactly where the input is not a valid gzip stream.
#[verifier::external_body]
fn gunzip(bytes: &Vec<u8>) -> (r: Result<Vec<u8>, ()>)
    ensures
        r matches Ok(out) ==> gunzip_of(bytes@) == Some(out@),
        r is Err ==> gunzip_of(bytes@) is None,
{
    let mut decoder = flate2::read::GzDecoder::new(&bytes[..]);
    let mut out: Vec<u8> = Vec::new();
    match std::io::Read::read_to_end(&mut decoder, &mut out) {
        Ok(_) => Ok(out),
        Err(_) => Err(()),
    }
}

/// Relies on tar's `Archive::entries` and the entry accessors `path`,
/// `Header::mode`, `EntryType::as_byte`, `Entry::link_name` and the entry's
/// `Read` impl: the entry list of a tar stream is a function of the bytes
/// alone, and decoding fails exactly where the stream is not well-formed.
#[verifier::external_body]
fn tar_list(bytes: &Vec<u8>) -> (r: Option<Vec<TarEntry>>)
    ensures
        r matches Some(es) ==> tar_entries_of(bytes@) == Some(
            es@.map_values(|t: TarEntry| t@),
        ),
        r is None ==> tar_entries_of(bytes@) is None,
{
    let mut archive = tar::Archive::new(&bytes[..]);
    let mut out = Vec::new();
    for e in archive.entries().ok()? {
        let mut e = e.ok()?;
        let path = e.path().ok()?.to_string_lossy().into_owned();
        let mode = e.header().mode().ok()?;
        let type_byte = e.header().entry_type().as_byte();
        let link_target = e.link_name().ok()?.map(|p| p.to_string_lossy().into_owned());
        let mut data = Vec::new();
        std::io::Read::read_to_end(&mut e, &mut data).ok()?;
        out.push(TarEntry { path, mode, type_byte, link_target, data });
    }
    Some(out)
}

/// Decodes a downloaded archive into its entry list.  Succeeds exactly where
/// the bytes are a valid gzip stream holding a well-formed tar stream, and
/// then yields exactly the stored entries.
pub fn unpack_archive(bytes: &Vec<u8>) -> (r: Result<Vec<TarEntry>, UpdateError>)
    ensures
        r is Ok <==> entries_of_archive(bytes@) is Some,
        r matches Ok(es) ==> entries_of_archive(bytes@) == Some(
            es@.map_values(|t: TarEntry| t@),
        ),
        r matches Err(e) ==> e == UpdateError::LocalIo,
{
    match gunzip(bytes) {
        Ok(tar_bytes) => match tar_list(&tar_bytes) {
            Some(entries) => Ok(entries),
            None => Err(UpdateError::LocalIo),
        },
        Err(_) => Err(UpdateError::LocalIo),
    }
}

/// Keeps, in order, exactly the entries that are safe to write below the
/// working directory; everything else is dropped.
pub fn vet_entries(entries: Vec<TarEntry>) -> (r: Vec<TarEntry>)
    ensures
        r@.map_values(|t: TarEntry| t@) == entries@.map_values(|t: TarEntry| t@).filter(
            |m: TarEntryModel| entry_model_safe(m),
        ),
{
    broadcast use group_filter_ensures;

    let ghost orig = entries@;
    let mut rest = entries;
    let mut out: Vec<TarEntry> = Vec::new();
    proof {
        assert(rest@ =~= orig.subrange(orig.len() - rest@.len(), orig.len() as int));
        assert(orig.subrange(0, 0).map_values(|t: TarEntry| t@) =~= Seq::<
            TarEntryModel,
        >::empty());
        reveal(Seq::filter);
    }
    while rest.len() > 0
        invariant
            rest@.len() <= orig.len(),
            rest@ == orig.subrange(orig.len() - rest@.len(), orig.len() as int),
            out@.map_values(|t: TarEntry| t@) == orig.subrange(
                0,
                orig.len() - rest@.len(),
            ).map_values(|t: TarEntry| t@).filter(|m: TarEntryModel| entry_model_safe(m)),
        decreases rest@.len(),
    {
        let ghost done = orig.len() - rest@.len();
        let entry = rest.remove(0);
        proof {
            assert(entry@ == orig[done]@);
            assert(rest@ =~= orig.subrange(orig.len() - rest@.len(), orig.len() as int));
            let prefix = orig.subrange(0, done).map_values(|t: TarEntry| t@);
            let extended = orig.subrange(0, done + 1).map_values(|t: TarEntry| t@);
            assert(extended.drop_last() =~= prefix);
            assert(extended.last() == orig[done]@);
            reveal(Seq::filter);
            assert(extended.filter(|m: TarEntryModel| entry_model_safe(m))
                == if entry_model_safe(orig[done]@) {
                    prefix.filter(|m: TarEntryModel| entry_model_safe(m)).push(orig[done]@)
                } else {
                    prefix.filter(|m: TarEntryModel| entry_model_safe(m))
                });
        }
        if entry_is_safe(&entry) {
            out.push(entry);
            proof {
                assert(out@.map_values(|t: TarEntry| t@) =~= out@.drop_last().map_values(
                    |t: TarEntry| t@,
                ).push(entry@));
            }
        }
    }
    proof {
        assert(orig.subrange(0, orig.len() as int) =~= orig);
    }
    out
}

/// Law: vetting keeps only safe entries, and keeps every safe entry: each
/// kept entry satisfies the safety predicate, and each stored safe entry is
/// among the kept ones.
pub proof fn lemma_vetting_is_exact(entries: Seq<TarEntryModel>, i: int)
    ensures
        0 <= i < entries.filter(|m: TarEntryModel| entry_model_safe(m)).len()
            ==> entry_model_safe(entries.filter(|m: TarEntryModel| entry_model_safe(m))[i]),
        0 <= i < entries.len() && entry_model_safe(entries[i]) ==> entries.filter(
            |m: TarEntryModel| entry_model_safe(m),
        ).contains(entries[i]),
{
    broadcast use group_filter_ensures;

}

} // verus!
