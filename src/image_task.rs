//! One unit of work per notification record: which object, which token, and
//! which effect.
use crate::s3_sequencer::S3Sequencer;
use vstd::prelude::*;

verus! {

/// The effect a notification asks for.
#[derive(Debug, Clone, Copy, PartialEq, Eq, Structural)]
pub enum TaskType {
    /// The object was created: write a grayscale copy to the destination.
    Grayscale,
    /// The object was removed: delete the destination copy.
    Delete,
}

/// The work owed to one notification record.
#[derive(Debug, Clone)]
pub struct ImageTask {
    pub bucket_name: String,
    pub object_key: String,
    pub sequencer: S3Sequencer,
    pub task_type: TaskType,
    pub processing: bool,
}

/// Why a notification record could not become a task.
#[derive(Debug, Clone, Copy, PartialEq, Eq, Structural)]
pub enum ParseError {
    MissingEventName,
    UnknownEventName,
    MissingBucketName,
    MissingObjectKey,
    MissingSequencer,
}

pub open spec fn created_prefix() -> Seq<char> {
    seq!['O', 'b', 'j', 'e', 'c', 't', 'C', 'r', 'e', 'a', 't', 'e', 'd']
}

pub open spec fn removed_prefix() -> Seq<char> {
    seq!['O', 'b', 'j', 'e', 'c', 't', 'R', 'e', 'm', 'o', 'v', 'e', 'd']
}

pub open spec fn is_prefix(p: Seq<char>, s: Seq<char>) -> bool {
    p.len() <= s.len() && s.subrange(0, p.len() as int) == p
}

/// The effect an event name selects, if any.
pub open spec fn task_type_of(name: Seq<char>) -> Option<TaskType> {
    if is_prefix(created_prefix(), name) {
        Some(TaskType::Grayscale)
    } else if is_prefix(removed_prefix(), name) {
        Some(TaskType::Delete)
    } else {
        None
    }
}

/// The first missing or malformed field of a record, in the order the
/// fields are read.
pub open spec fn parse_error_of(
    event_name: Option<String>,
    bucket_name: Option<String>,
    object_key: Option<String>,
    sequencer: Option<String>,
) -> Option<ParseError> {
    if event_name.is_none() {
        Some(ParseError::MissingEventName)
    } else if task_type_of(event_name->0@).is_none() {
        Some(ParseError::UnknownEventName)
    } else if bucket_name.is_none() {
        Some(ParseError::MissingBucketName)
    } else if object_key.is_none() {
        Some(ParseError::MissingObjectKey)
    } else if sequencer.is_none() {
        Some(ParseError::MissingSequencer)
    } else {
        None
    }
}

/// Whether `s` starts with `p`.
pub fn has_prefix(s: &str, p: &str) -> (r: bool)
    ensures
        r == is_prefix(p@, s@),
{
    let ls = s.unicode_len();
    let lp = p.unicode_len();
    if lp > ls {
        return false;
    }
    let mut i: usize = 0;
    while i < lp
        invariant
            ls == s@.len(),
            lp == p@.len(),
            lp <= ls,
            i <= lp,
            forall|j: int| 0 <= j < i ==> s@[j] == p@[j],
        decreases lp - i,
    {
        if s.get_char(i) != p.get_char(i) {
            assert(s@.subrange(0, lp as int)[i as int] != p@[i as int]);
            return false;
        }
        i = i + 1;
    }
    assert(s@.subrange(0, lp as int) =~= p@);
    true
}

/// The effect selected by an event name.
pub fn classify_event(name: &str) -> (r: Option<TaskType>)
    ensures
        r == task_type_of(name@),
{
    let created = "ObjectCreated";
    let removed = "ObjectRemoved";
    proof {
        reveal_strlit("ObjectCreated");
        reveal_strlit("ObjectRemoved");
        assert(created@ =~= created_prefix());
        assert(removed@ =~= removed_prefix());
    }
    if has_prefix(name, created) {
        Some(TaskType::Grayscale)
    } else if has_prefix(name, removed) {
        Some(TaskType::Delete)
    } else {
        None
    }
}

impl ImageTask {
    /// Builds the task for one notification record from its event name,
    /// bucket name, object key and ordering token. Fails on the first field
    /// that is missing, or on an event name that is neither a creation nor
    /// a removal.
    pub fn from_record_fields(
        event_name: Option<String>,
        bucket_name: Option<String>,
        object_key: Option<String>,
        sequencer: Option<String>,
    ) -> (r: Result<ImageTask, ParseError>)
        ensures
            parse_error_of(event_name, bucket_name, object_key, sequencer) matches Some(e)
                ==> r == Err::<ImageTask, ParseError>(e),
            parse_error_of(event_name, bucket_name, object_key, sequencer).is_none() ==> (r matches Ok(t) && {
                &&& Some(t.task_type) == task_type_of(event_name->0@)
                &&& t.bucket_name@ == bucket_name->0@
                &&& t.object_key@ == object_key->0@
                &&& t.sequencer.bucket_name@ == bucket_name->0@
                &&& t.sequencer.object_key@ == object_key->0@
                &&& t.sequencer.sequencer@ == sequencer->0@
                &&& t.processing
            }),
    {
        let name = match event_name {
            Some(n) => n,
            None => return Err(ParseError::MissingEventName),
        };
        let task_type = match classify_event(name.as_str()) {
            Some(k) => k,
            None => return Err(ParseError::UnknownEventName),
        };
        let bucket_name = match bucket_name {
            Some(b) => b,
            None => return Err(ParseError::MissingBucketName),
        };
        let object_key = match object_key {
            Some(k) => k,
            None => return Err(ParseError::MissingObjectKey),
        };
        let token = match sequencer {
            Some(s) => s,
            None => return Err(ParseError::MissingSequencer),
        };
        let sequencer = S3Sequencer::new(bucket_name.as_str(), object_key.as_str(), token.as_str());
        Ok(ImageTask { bucket_name, object_key, sequencer, task_type, processing: true })
    }
}

/// What the image library makes of the bytes `body` stored under `key`:
/// the grayscale image encoded in the format the key's extension names, or
/// nothing where the format is unknown or the bytes do not decode.
pub uninterp spec fn grayscale_of(key: Seq<char>, body: Seq<u8>) -> Option<Seq<u8>>;

/// Relies on image's `ImageFormat::from_path`, `load_from_memory_with_format`,
/// `DynamicImage::grayscale` and `DynamicImage::write_to`: the result is a
/// function of the key and the bytes alone.
#[verifier::external_body]
fn grayscale_bytes(key: &str, body: &[u8]) -> (r: Option<Vec<u8>>)
    ensures
        match r {
            Some(v) => grayscale_of(key@, body@) == Some(v@),
            None => grayscale_of(key@, body@).is_none(),
        },
{
    let format = image::ImageFormat::from_path(key).ok()?;
    let img = image::load_from_memory_with_format(body, format).ok()?;
    let mut buf = Vec::new();
    img.grayscale().write_to(&mut std::io::Cursor::new(&mut buf), format).ok()?;
    Some(buf)
}

/// Converts the source bytes of `task` into the bytes to store at its
/// destination.
pub fn grayscale(task: &ImageTask, body: &Vec<u8>) -> (r: Option<Vec<u8>>)
    ensures
        match r {
            Some(v) => grayscale_of(task.object_key@, body@) == Some(v@),
            None => grayscale_of(task.object_key@, body@).is_none(),
        },
{
    grayscale_bytes(task.object_key.as_str(), body.as_slice())
}

} // verus!
