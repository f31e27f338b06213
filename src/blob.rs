//! Converted bytes with their container, and the name they are sent under.

use vstd::prelude::*;

verus! {

#[verifier::external_type_specification]
#[verifier::external_body]
pub struct ExBytes(bytes::Bytes);

/// What a `Bytes` buffer holds.
pub uninterp spec fn bytes_of(b: bytes::Bytes) -> Seq<u8>;

/// Relies on `impl From<Vec<u8>> for Bytes`: the buffer takes over the vector's bytes.
#[verifier::external_body]
pub(crate) fn bytes_from_vec(v: Vec<u8>) -> (r: bytes::Bytes)
    ensures
        bytes_of(r) == v@,
{
    bytes::Bytes::from(v)
}

/// Relies on `Bytes::len`: the number of bytes held.
#[verifier::external_body]
fn bytes_len(b: &bytes::Bytes) -> (r: usize)
    ensures
        r == bytes_of(*b).len(),
{
    b.len()
}

#[verifier::external_type_specification]
#[verifier::external_body]
pub struct ExInputFile(teloxide::types::InputFile);

/// The bytes an attachment carries.
pub uninterp spec fn attachment_bytes(f: teloxide::types::InputFile) -> Seq<u8>;

/// The file name an attachment is sent under, if it has one.
pub uninterp spec fn attachment_name(f: teloxide::types::InputFile) -> Option<Seq<char>>;

/// Relies on `InputFile::memory`: an attachment whose content is the given
/// bytes, with no file name yet.
#[verifier::external_body]
fn input_file_memory(data: bytes::Bytes) -> (r: teloxide::types::InputFile)
    ensures
        attachment_bytes(r) == bytes_of(data),
        attachment_name(r) is None,
{
    teloxide::types::InputFile::memory(data)
}

/// Relies on `InputFile::file_name`: the same attachment, sent under the given name.
#[verifier::external_body]
fn input_file_named(f: teloxide::types::InputFile, name: String) -> (r: teloxide::types::InputFile)
    ensures
        attachment_bytes(r) == attachment_bytes(f),
        attachment_name(r) == Some(name@),
{
    f.file_name(name)
}

/// The output container of a converted file.
#[derive(Clone, Copy, Debug, PartialEq, Eq, Structural)]
pub enum Ext {
    Webp,
    Png,
    Webm,
    Gif,
}

/// The file extension of each container, as written after the dot.
pub open spec fn ext_chars(e: Ext) -> Seq<char> {
    match e {
        Ext::Webp => seq!['w', 'e', 'b', 'p'],
        Ext::Png => seq!['p', 'n', 'g'],
        Ext::Webm => seq!['w', 'e', 'b', 'm'],
        Ext::Gif => seq!['g', 'i', 'f'],
    }
}

impl Ext {
    pub fn as_str(&self) -> (r: &'static str)
        ensures
            r@ == ext_chars(*self),
    {
        match self {
            Ext::Webp => {
                proof {
                    reveal_strlit("webp");
                }
                "webp"
            },
            Ext::Png => {
                proof {
                    reveal_strlit("png");
                }
                "png"
            },
            Ext::Webm => {
                proof {
                    reveal_strlit("webm");
                }
                "webm"
            },
            Ext::Gif => {
                proof {
                    reveal_strlit("gif");
                }
                "gif"
            },
        }
    }
}

/// The name an output file is sent under: the base name, or `out` when there
/// is none, then a dot and the extension.
pub open spec fn output_name_of(base: Option<Seq<char>>, e: Ext) -> Seq<char> {
    let stem = match base {
        Some(b) => b,
        None => seq!['o', 'u', 't'],
    };
    stem + seq!['.'] + ext_chars(e)
}

/// Converted bytes together with the container they are in.
#[derive(Debug)]
pub struct Blob {
    pub data: bytes::Bytes,
    pub ext: Ext,
}

impl Blob {
    pub fn new(data: bytes::Bytes, ext: Ext) -> (r: Blob)
        ensures
            bytes_of(r.data) == bytes_of(data),
            r.ext == ext,
    {
        Blob { data, ext }
    }

    /// A blob that takes over the bytes of a vector.
    pub fn from_vec(data: Vec<u8>, ext: Ext) -> (r: Blob)
        ensures
            bytes_of(r.data) == data@,
            r.ext == ext,
    {
        Blob::new(bytes_from_vec(data), ext)
    }

    pub fn len(&self) -> (r: usize)
        ensures
            r == bytes_of(self.data).len(),
    {
        bytes_len(&self.data)
    }

    /// The file name this blob is sent under; it always ends in exactly
    /// `.<extension>`, and its stem is `out` when no base name is given.
    pub fn output_name(&self, base: Option<&str>) -> (r: String)
        ensures
            r@ == output_name_of(
                match base {
                    Some(b) => Some(b@),
                    None => None,
                },
                self.ext,
            ),
            r@.len() > ext_chars(self.ext).len(),
            r@.subrange(r@.len() - ext_chars(self.ext).len() - 1, r@.len() as int) == seq!['.']
                + ext_chars(self.ext),
            base is None ==> r@ == seq!['o', 'u', 't', '.'] + ext_chars(self.ext),
    {
        let mut name = match base {
            Some(b) => b.to_owned(),
            None => {
                proof {
                    reveal_strlit("out");
                }
                String::from_str("out")
            },
        };
        let stem = Ghost(name@);
        proof {
            reveal_strlit(".");
        }
        name.append(".");
        name.append(self.ext.as_str());
        assert(name@.subrange(stem@.len() as int, name@.len() as int) =~= seq!['.'] + ext_chars(
            self.ext,
        ));
        assert(base is None ==> name@ =~= seq!['o', 'u', 't', '.'] + ext_chars(self.ext));
        name
    }

    /// Turns the blob into an attachment named by `output_name`.
    pub fn into_input_file(self, base: Option<&str>) -> (r: teloxide::types::InputFile)
        ensures
            attachment_bytes(r) == bytes_of(self.data),
            attachment_name(r) == Some(
                output_name_of(
                    match base {
                        Some(b) => Some(b@),
                        None => None,
                    },
                    self.ext,
                ),
            ),
    {
        let name = self.output_name(base);
        input_file_named(input_file_memory(self.data), name)
    }
}

} // verus!
