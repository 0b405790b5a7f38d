use vstd::prelude::*;

use crate::enums::SerializationFormat;
use crate::errors::ErrorKind;
use crate::initialization::{dir_create, dir_probe, file_encode, file_probe, file_write};

verus! {

/// The filesystem as the initializer sees it: each existing path maps to
/// `None` for a directory and to `Some(text)` for a file.
pub type FsModel = Map<Seq<char>, Option<Seq<char>>>;

/// `q` names an entry somewhere inside the directory `p`.
pub open spec fn lies_under(q: Seq<char>, p: Seq<char>) -> bool {
    &&& q.len() > p.len()
    &&& q.subrange(0, p.len() as int) == p
    &&& q[p.len() as int] == '/'
}

/// Every entry's enclosing directories exist.
pub open spec fn fs_wf(fs: FsModel) -> bool {
    forall|q: Seq<char>, i: int|
        #![trigger fs.contains_key(q), q.subrange(0, i)]
        fs.contains_key(q) && 0 < i < q.len() && q[i] == '/' ==> fs.contains_key(q.subrange(0, i))
}

/// `p` is a directory with nothing inside it.
pub open spec fn is_empty_dir(fs: FsModel, p: Seq<char>) -> bool {
    &&& fs.contains_key(p)
    &&& fs[p] is None
    &&& forall|q: Seq<char>| #[trigger] fs.contains_key(q) ==> !lies_under(q, p)
}

/// The filesystem and the outcome after creating the configuration directory
/// `p`, where `created` tells whether the filesystem accepted the creation.
pub open spec fn dir_run(fs: FsModel, p: Seq<char>, created: bool) -> (FsModel, Option<ErrorKind>) {
    let probed = dir_probe(fs.contains_key(p));
    if probed is Some {
        (fs, probed)
    } else if created {
        (fs.insert(p, None), dir_create(true))
    } else {
        (fs, dir_create(false))
    }
}

/// The filesystem and the outcome after writing a configuration file at `p`
/// in `format`, with the encoders of `supported` present. `encoded` is the
/// encoder's text or message; `written` tells whether writing succeeded and,
/// where it failed, what it left at `p`, if anything.
pub open spec fn file_run(
    fs: FsModel,
    p: Seq<char>,
    format: SerializationFormat,
    supported: Set<SerializationFormat>,
    encoded: Result<Seq<char>, Seq<char>>,
    written: Result<(), Option<Seq<char>>>,
) -> (FsModel, Option<ErrorKind>) {
    let probed = file_probe(fs.contains_key(p), format, supported);
    if probed is Some {
        (fs, probed)
    } else {
        match encoded {
            Err(_) => (fs, file_encode(false)),
            Ok(text) => match written {
                Ok(()) => (fs.insert(p, Some(text)), file_write(true)),
                Err(None) => (fs, file_write(false)),
                Err(Some(left)) => (fs.insert(p, Some(left)), file_write(false)),
            },
        }
    }
}

/// Creating a directory where no entry exists, when the filesystem accepts
/// the creation, succeeds; afterwards `p` is an empty directory and nothing
/// else has changed.
pub proof fn lemma_new_dir_is_created(fs: FsModel, p: Seq<char>)
    requires
        fs_wf(fs),
        p.len() > 0,
        !fs.contains_key(p),
    ensures
        dir_run(fs, p, true).1 is None,
        is_empty_dir(dir_run(fs, p, true).0, p),
        dir_run(fs, p, true).0.remove(p) == fs,
{
    let after = dir_run(fs, p, true).0;
    assert forall|q: Seq<char>| #[trigger] after.contains_key(q) implies !lies_under(q, p) by {
        if lies_under(q, p) {
            assert(fs.contains_key(q));
            assert(fs.contains_key(q.subrange(0, p.len() as int)));
        }
    }
    assert(after.remove(p) =~= fs);
}

/// Creating a directory where an entry already exists fails with
/// `ConfigDirectoryAlreadyExists` and leaves the filesystem as it was.
pub proof fn lemma_existing_dir_is_refused(fs: FsModel, p: Seq<char>, created: bool)
    requires
        fs.contains_key(p),
    ensures
        dir_run(fs, p, created) == (fs, Some(ErrorKind::ConfigDirectoryAlreadyExists)),
{
}

/// Creating the same new directory twice: the first call succeeds and the
/// directory exists, the second fails with `ConfigDirectoryAlreadyExists`.
pub proof fn lemma_dir_created_twice(fs: FsModel, p: Seq<char>, created_again: bool)
    requires
        !fs.contains_key(p),
    ensures
        dir_run(fs, p, true).1 is None,
        dir_run(fs, p, true).0.contains_key(p),
        dir_run(dir_run(fs, p, true).0, p, created_again).1 == Some(
            ErrorKind::ConfigDirectoryAlreadyExists,
        ),
{
}

/// Writing a configuration file at a fresh path in a supported format
/// succeeds, and the file then holds exactly the encoder's text.
pub proof fn lemma_file_holds_encoded_text(
    fs: FsModel,
    p: Seq<char>,
    format: SerializationFormat,
    supported: Set<SerializationFormat>,
    text: Seq<char>,
)
    requires
        !fs.contains_key(p),
        supported.contains(format),
    ensures
        file_run(fs, p, format, supported, Ok(text), Ok(())) == (
        fs.insert(p, Some(text)),
        None::<ErrorKind>,
        ),
{
}

/// Writing a configuration file twice at the same fresh path: the first call
/// succeeds, the second (with any format and value) fails with
/// `ConfigFileAlreadyExists`, and the file keeps what the first call wrote.
pub proof fn lemma_file_written_once(
    fs: FsModel,
    p: Seq<char>,
    format: SerializationFormat,
    supported: Set<SerializationFormat>,
    text: Seq<char>,
    format_again: SerializationFormat,
    supported_again: Set<SerializationFormat>,
    encoded_again: Result<Seq<char>, Seq<char>>,
    written_again: Result<(), Option<Seq<char>>>,
)
    requires
        !fs.contains_key(p),
        supported.contains(format),
    ensures
        ({
            let (first, o1) = file_run(fs, p, format, supported, Ok(text), Ok(()));
            let (second, o2) = file_run(
                first,
                p,
                format_again,
                supported_again,
                encoded_again,
                written_again,
            );
            &&& o1 is None
            &&& o2 == Some(ErrorKind::ConfigFileAlreadyExists)
            &&& second == first
            &&& second[p] == Some(text)
        }),
{
}

/// Asking for a format without an encoder fails with `UnsupportedFormat` and
/// creates nothing.
pub proof fn lemma_unsupported_format_writes_nothing(
    fs: FsModel,
    p: Seq<char>,
    format: SerializationFormat,
    supported: Set<SerializationFormat>,
    encoded: Result<Seq<char>, Seq<char>>,
    written: Result<(), Option<Seq<char>>>,
)
    requires
        !fs.contains_key(p),
        !supported.contains(format),
    ensures
        file_run(fs, p, format, supported, encoded, written) == (
        fs,
        Some(ErrorKind::UnsupportedFormat),
        ),
        !file_run(fs, p, format, supported, encoded, written).0.contains_key(p),
{
}

} // verus!
