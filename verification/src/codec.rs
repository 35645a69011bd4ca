//! The per-file transform pipeline: copy, compress, or decompress, with the
//! stored name derived from the naming convention.

use std::io::Read;
use std::io::Write;

use vstd::prelude::*;

use crate::config::Mode;
use crate::config::SyncError;
use crate::paths::compress_relative_path;
use crate::paths::has_suffix_spec;
use crate::paths::original_file_name;
use crate::paths::restored_path_spec;
use crate::paths::stored_path_spec;

verus! {

/// The per-file transform of one sync pass.
#[derive(Debug, Clone, Copy, PartialEq, Eq, Structural)]
pub enum SyncTransform {
    Plain,
    Compress,
    Decompress,
}

/// The transform a sync direction uses when compression is configured:
/// pushes store compressed files, pulls restore them, and without the flag
/// files are copied as they are.
pub open spec fn transform_for_spec(mode: Mode, compress: bool) -> SyncTransform {
    if !compress {
        SyncTransform::Plain
    } else if mode is Push {
        SyncTransform::Compress
    } else {
        SyncTransform::Decompress
    }
}

/// Picks the per-file transform for one sync invocation.
pub fn transform_for(mode: &Mode, compress: bool) -> (r: SyncTransform)
    ensures
        r == transform_for_spec(*mode, compress),
{
    if !compress {
        SyncTransform::Plain
    } else {
        match mode {
            Mode::Push => SyncTransform::Compress,
            Mode::Pull => SyncTransform::Decompress,
        }
    }
}

/// What decoding a gzip stream yields: the decoded bytes for a well-formed
/// stream, nothing for a malformed one. Decoding is a function of the input
/// bytes alone.
pub uninterp spec fn gunzip_of(data: Seq<u8>) -> Option<Seq<u8>>;

/// Relies on flate2's `write::GzEncoder`: the gzip stream it produces for
/// the input bytes decodes, through flate2's `read::GzDecoder`, back to
/// exactly those bytes. Writing into a `Vec` sink cannot fail.
#[verifier::external_body]
fn gzip_encode(data: &Vec<u8>) -> (r: Vec<u8>)
    ensures
        gunzip_of(r@) == Some(data@),
{
    let mut encoder = flate2::write::GzEncoder::new(Vec::new(), flate2::Compression::best());
    encoder.write_all(data).unwrap();
    encoder.finish().unwrap()
}

/// Relies on flate2's `read::GzDecoder`: decoding is deterministic in the
/// input bytes, yields the decompressed bytes of a well-formed gzip stream,
/// and reports a malformed stream as an error.
#[verifier::external_body]
fn gzip_decode(data: &Vec<u8>) -> (r: Option<Vec<u8>>)
    ensures
        match r {
            Some(v) => gunzip_of(data@) == Some(v@),
            None => gunzip_of(data@) is None,
        },
{
    let mut decoder = flate2::read::GzDecoder::new(&data[..]);
    let mut out = Vec::new();
    match decoder.read_to_end(&mut out) {
        Ok(_) => Some(out),
        Err(_) => None,
    }
}

fn copy_bytes(data: &Vec<u8>) -> (r: Vec<u8>)
    ensures
        r@ == data@,
{
    let mut out: Vec<u8> = Vec::new();
    let mut i: usize = 0;
    while i < data.len()
        invariant
            i <= data@.len(),
            out@ == data@.subrange(0, i as int),
        decreases data@.len() - i,
    {
        out.push(data[i]);
        proof {
            assert(out@ =~= data@.subrange(0, i + 1));
        }
        i += 1;
    }
    proof {
        assert(data@.subrange(0, data@.len() as int) =~= data@);
    }
    out
}

/// Compresses one file's bytes into a stream that decodes back to exactly
/// those bytes.
pub fn compress_bytes(data: &Vec<u8>) -> (r: Vec<u8>)
    ensures
        gunzip_of(r@) == Some(data@),
{
    gzip_encode(data)
}

/// Decodes one stored file's bytes; a malformed stream is an encoding
/// error.
pub fn decompress_bytes(data: &Vec<u8>) -> (r: Result<Vec<u8>, SyncError>)
    ensures
        r matches Ok(v) ==> gunzip_of(data@) == Some(v@),
        r is Err <==> gunzip_of(data@) is None,
        r is Err ==> r == Err::<Vec<u8>, SyncError>(SyncError::Encoding),
{
    match gzip_decode(data) {
        Some(v) => Ok(v),
        None => Err(SyncError::Encoding),
    }
}

/// The per-file step of one sync pass: the stored path and stored bytes for
/// a source file. A plain pass copies; a compress pass stores the bytes
/// compressed under the marked name; a decompress pass restores a marked
/// file's name and bytes and passes an unmarked file through verbatim.
pub fn transform_file(rel_path: &str, data: &Vec<u8>, transform: SyncTransform) -> (r: Result<
    (String, Vec<u8>),
    SyncError,
>)
    ensures
        transform is Plain ==> (r matches Ok(o) && o.0@ == rel_path@ && o.1@ == data@),
        transform is Compress ==> (r matches Ok(o) && o.0@ == stored_path_spec(rel_path@)
            && gunzip_of(o.1@) == Some(data@)),
        transform is Decompress && !has_suffix_spec(rel_path@) ==> (r matches Ok(o) && o.0@
            == rel_path@ && o.1@ == data@),
        transform is Decompress && has_suffix_spec(rel_path@) ==> {
            &&& (r matches Ok(o) ==> o.0@ == restored_path_spec(rel_path@) && gunzip_of(data@)
                == Some(o.1@))
            &&& (r is Err <==> gunzip_of(data@) is None)
            &&& (r is Err ==> r == Err::<(String, Vec<u8>), SyncError>(SyncError::Encoding))
        },
{
    match transform {
        SyncTransform::Plain => Ok((rel_path.to_owned(), copy_bytes(data))),
        SyncTransform::Compress => Ok((compress_relative_path(rel_path), gzip_encode(data))),
        SyncTransform::Decompress => {
            match original_file_name(rel_path) {
                Some(orig) => match gzip_decode(data) {
                    Some(v) => Ok((orig, v)),
                    None => Err(SyncError::Encoding),
                },
                None => Ok((rel_path.to_owned(), copy_bytes(data))),
            }
        },
    }
}

} // verus!
