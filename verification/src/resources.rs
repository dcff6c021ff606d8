//! Locating resources beside the executable and turning their bytes into
//! NUL-terminated text.

use crate::driver::Next;
use crate::driver::Reply;
use crate::driver::ReplyView;
use crate::driver::Request;
use crate::driver::RequestView;
use crate::driver::Step;
use crate::driver::Turn;
use std::path::PathBuf;
use vstd::prelude::*;
use vstd::utf8::encode_utf8;

verus! {

/// `std::path::PathBuf`, carried through as an opaque value.
#[verifier::external_type_specification]
#[verifier::external_body]
pub struct ExPathBuf(PathBuf);

/// `std::io::Error`, carried through as an opaque value.
#[verifier::external_type_specification]
#[verifier::external_body]
pub struct ExIoError(std::io::Error);

/// The encoded bytes that a path holds (`OsStr::as_encoded_bytes`).
pub uninterp spec fn path_text(path: PathBuf) -> Seq<u8>;

/// The encoded bytes of `Path::join` applied to paths with the given bytes.
pub uninterp spec fn joined(base: Seq<u8>, part: Seq<u8>) -> Seq<u8>;

/// The encoded bytes of `Path::parent` applied to a path with the given bytes.
pub uninterp spec fn parent_text(path: Seq<u8>) -> Option<Seq<u8>>;

/// `PathBuf::from` on a string slice. Trusted: the path holds the UTF-8
/// encoding of the text, as the standard library documents for an `OsStr`
/// made from valid Unicode.
#[verifier::external_body]
fn path_from(text: &str) -> (path: PathBuf)
    ensures
        path_text(path) == encode_utf8(text@),
{
    PathBuf::from(text)
}

/// `Path::join`. Trusted: the result depends on the bytes of the two paths
/// alone, and is named by [`joined`].
#[verifier::external_body]
fn join(base: &PathBuf, part: &PathBuf) -> (path: PathBuf)
    ensures
        path_text(path) == joined(path_text(*base), path_text(*part)),
{
    base.join(part)
}

/// `Path::parent`, with the borrowed result copied into an owned path.
/// Trusted: whether there is a parent, and which, depends on the bytes of the
/// path alone, and is named by [`parent_text`].
#[verifier::external_body]
fn parent(path: &PathBuf) -> (dir: Option<PathBuf>)
    ensures
        match dir {
            Some(d) => parent_text(path_text(*path)) == Some(path_text(d)),
            None => parent_text(path_text(*path)) is None,
        },
{
    path.parent().map(std::path::Path::to_path_buf)
}

/// The pieces of `text` between its slashes, in order. A text without a slash
/// is one segment; a slash at either end, or two in a row, bound an empty one.
pub open spec fn segments(text: Seq<char>) -> Seq<Seq<char>>
    decreases text.len(),
{
    if text.len() == 0 {
        seq![Seq::empty()]
    } else {
        let before = segments(text.drop_last());
        if text.last() == '/' {
            before.push(Seq::empty())
        } else {
            before.drop_last().push(before.last().push(text.last()))
        }
    }
}

/// The segments of `parts` written one after another with a slash between
/// each two.
pub open spec fn glued(parts: Seq<Seq<char>>) -> Seq<char>
    decreases parts.len(),
{
    if parts.len() == 0 {
        Seq::empty()
    } else if parts.len() == 1 {
        parts[0]
    } else {
        glued(parts.drop_last()) + seq!['/'] + parts.last()
    }
}

/// The bytes of the path reached from `root` by joining each of `parts` in
/// turn.
pub open spec fn located(root: Seq<u8>, parts: Seq<Seq<char>>) -> Seq<u8>
    decreases parts.len(),
{
    if parts.len() == 0 {
        root
    } else {
        joined(located(root, parts.drop_last()), encode_utf8(parts.last()))
    }
}

/// Splitting loses nothing and leaves no slash: there is always at least one
/// segment, no segment holds a slash, and the segments glued back together
/// give the text.
pub proof fn segments_split_at_slashes(text: Seq<char>)
    ensures
        segments(text).len() >= 1,
        slash_free(segments(text)),
        glued(segments(text)) == text,
    decreases text.len(),
{
    if text.len() == 0 {
        assert(glued(segments(text)) =~= text);
    } else {
        let shorter = text.drop_last();
        segments_split_at_slashes(shorter);
        let before = segments(shorter);
        let now = segments(text);
        if text.last() == '/' {
            assert(now.drop_last() =~= before);
            assert(glued(now) =~= text);
            assert forall|i: int| 0 <= i < now.len() implies !(#[trigger] now[i]).contains('/') by {
                if i < before.len() {
                    assert(now[i] == before[i]);
                }
            }
        } else {
            let grown = before.last().push(text.last());
            assert(now.last() == grown);
            assert(now.drop_last() =~= before.drop_last());
            if before.len() == 1 {
                assert(glued(before) == before[0]);
                assert(now.len() == 1 && now[0] == grown);
                assert(shorter.push(text.last()) =~= text);
            } else {
                assert(glued(before) == glued(before.drop_last()) + seq!['/'] + before.last());
                assert(glued(now) == glued(now.drop_last()) + seq!['/'] + grown);
                assert(shorter.push(text.last()) =~= text);
                assert(glued(now) =~= text);
            }
            assert forall|i: int| 0 <= i < now.len() implies !(#[trigger] now[i]).contains('/') by {
                if i < before.len() - 1 {
                    assert(now[i] == before[i]);
                } else {
                    assert(!before[before.len() - 1].contains('/'));
                    assert forall|k: int| 0 <= k < grown.len() implies grown[k] != '/' by {
                        if k < grown.len() - 1 {
                            assert(before.last()[k] == grown[k]);
                            assert(before.last().contains(grown[k]));
                        }
                    }
                }
            }
        }
    }
}

/// Whether no segment of `parts` holds a slash.
pub open spec fn slash_free(parts: Seq<Seq<char>>) -> bool {
    forall|i: int| 0 <= i < parts.len() ==> !(#[trigger] parts[i]).contains('/')
}

/// There is one way only to split a text at its slashes: segments without a
/// slash that give the text when glued together are the segments of the
/// text.
pub proof fn segments_are_the_only_split(text: Seq<char>, parts: Seq<Seq<char>>)
    requires
        parts.len() >= 1,
        slash_free(parts),
        glued(parts) == text,
    ensures
        parts == segments(text),
    decreases text.len(),
{
    let front = parts.drop_last();
    let last = parts.last();
    if parts.len() >= 2 {
        assert(glued(parts) == glued(front) + seq!['/'] + last);
    }
    if text.len() == 0 {
        assert(parts.len() == 1);
        assert(parts[0] =~= Seq::<char>::empty());
        assert(parts =~= seq![Seq::<char>::empty()]);
    } else if last.len() == 0 {
        assert(parts.len() >= 2);
        assert(last =~= Seq::<char>::empty());
        assert(text.drop_last() =~= glued(front));
        assert forall|i: int| 0 <= i < front.len() implies !(#[trigger] front[i]).contains(
            '/',
        ) by {
            assert(front[i] == parts[i]);
        }
        segments_are_the_only_split(text.drop_last(), front);
        assert(parts =~= front.push(Seq::empty()));
    } else {
        assert(last.contains(last.last()));
        assert(text.last() == last.last());
        let shorter = front.push(last.drop_last());
        assert(shorter.drop_last() =~= front);
        if parts.len() >= 2 {
            assert(glued(shorter) == glued(front) + seq!['/'] + last.drop_last());
        }
        assert(glued(shorter) =~= text.drop_last());
        assert forall|i: int| 0 <= i < shorter.len() implies !(#[trigger] shorter[i]).contains(
            '/',
        ) by {
            if i < front.len() {
                assert(shorter[i] == parts[i]);
            } else {
                assert(!parts[parts.len() - 1].contains('/'));
                assert forall|k: int| 0 <= k < shorter[i].len() implies shorter[i][k] != '/' by {
                    assert(last[k] == shorter[i][k]);
                    assert(last.contains(last[k]));
                }
            }
        }
        segments_are_the_only_split(text.drop_last(), shorter);
        assert(last.drop_last().push(text.last()) =~= last);
        assert(parts =~= front.push(last));
    }
}

/// Cuts `location` at every slash.
pub fn split_segments<'a>(location: &'a str) -> (parts: Vec<&'a str>)
    ensures
        parts@.len() == segments(location@).len(),
        forall|i: int| 0 <= i < parts@.len() ==> (#[trigger] parts@[i])@ == segments(location@)[i],
{
    let total: usize = location.unicode_len();
    let mut parts: Vec<&'a str> = Vec::new();
    let mut start: usize = 0;
    let mut at: usize = 0;
    assert(location@.take(0) =~= Seq::<char>::empty());
    assert(location@.subrange(0, 0) =~= Seq::<char>::empty());
    for c in it: location.chars()
        invariant
            total == location@.len(),
            it.seq() == location@,
            at == it.index(),
            start <= at <= total,
            segments(location@.take(at as int)).len() == parts@.len() + 1,
            segments(location@.take(at as int)).last() == location@.subrange(start as int, at as int),
            forall|i: int|
                0 <= i < parts@.len() ==> (#[trigger] parts@[i])@ == segments(
                    location@.take(at as int),
                )[i],
    {
        let ghost seen = location@.take(at as int);
        let ghost next = location@.take(at + 1);
        assert(next.drop_last() =~= seen);
        assert(next.last() == c);
        if c == '/' {
            parts.push(location.substring_char(start, at));
            start = at + 1;
            assert(location@.subrange(start as int, at + 1) =~= Seq::<char>::empty());
        } else {
            assert(location@.subrange(start as int, at + 1) =~= location@.subrange(
                start as int,
                at as int,
            ).push(c));
        }
        at = at + 1;
    }
    assert(location@.take(total as int) =~= location@);
    parts.push(location.substring_char(start, total));
    parts
}

/// The path of the resource `location`, whose segments are separated by
/// slashes, below `root_dir`: each segment is joined onto the path in turn.
pub fn resource_name_to_path(root_dir: &PathBuf, location: &str) -> (path: PathBuf)
    ensures
        path_text(path) == located(path_text(*root_dir), segments(location@)),
{
    let parts = split_segments(location);
    proof {
        segments_split_at_slashes(location@);
    }
    let ghost all = segments(location@);
    let mut path = join(root_dir, &path_from(parts[0]));
    assert(all.take(1).drop_last() =~= Seq::<Seq<char>>::empty());
    assert(all.take(1).last() == all[0]);
    assert(located(path_text(*root_dir), all.take(1).drop_last()) == path_text(*root_dir));
    let mut done: usize = 1;
    while done < parts.len()
        invariant
            1 <= done <= parts@.len(),
            parts@.len() == all.len(),
            forall|i: int| 0 <= i < parts@.len() ==> (#[trigger] parts@[i])@ == all[i],
            path_text(path) == located(path_text(*root_dir), all.take(done as int)),
        decreases parts@.len() - done,
    {
        path = join(&path, &path_from(parts[done]));
        assert(all.take(done + 1).drop_last() =~= all.take(done as int));
        done = done + 1;
    }
    assert(all.take(done as int) =~= all);
    path
}

/// Why a resource could not be had.
#[derive(Debug)]
pub enum Error {
    /// The file could not be opened or read.
    Io(std::io::Error),
    /// The file holds a zero byte, so it cannot become NUL-terminated text.
    FileContainsNil,
    /// The location of the running executable is not known.
    FailedToGetExePath,
}

impl From<std::io::Error> for Error {
    fn from(other: std::io::Error) -> (error: Error) {
        Error::Io(other)
    }
}

impl vstd::std_specs::convert::FromSpecImpl<std::io::Error> for Error {
    open spec fn obeys_from_spec() -> bool {
        true
    }

    open spec fn from_spec(other: std::io::Error) -> Error {
        Error::Io(other)
    }
}

impl Error {
    /// The text that describes the error to a reader.
    pub open spec fn message_text(self) -> Seq<char> {
        match self {
            Error::Io(_) => "I/O error"@,
            Error::FileContainsNil => "Failed to create CString from file that contains 0"@,
            Error::FailedToGetExePath => "Failed to get executable path"@,
        }
    }

    /// Describes the error to a reader.
    pub fn message(&self) -> (text: String)
        ensures
            text@ == self.message_text(),
    {
        match self {
            Error::Io(_) => String::from_str("I/O error"),
            Error::FileContainsNil => String::from_str(
                "Failed to create CString from file that contains 0",
            ),
            Error::FailedToGetExePath => String::from_str("Failed to get executable path"),
        }
    }
}

/// Whether `bytes` is text closed by its only zero byte.
pub open spec fn terminated(bytes: Seq<u8>) -> bool {
    &&& bytes.len() >= 1
    &&& bytes.last() == 0
    &&& !bytes.drop_last().contains(0u8)
}

/// Bytes closed by a terminating zero, with no other zero among them: what a
/// native text interface reads as one string.
#[derive(Debug)]
pub struct NulTerminated {
    bytes: Vec<u8>,
}

impl View for NulTerminated {
    type V = Seq<u8>;

    /// The bytes, terminator included.
    closed spec fn view(&self) -> Seq<u8> {
        self.bytes@
    }
}

impl NulTerminated {
    #[verifier::type_invariant]
    spec fn well_formed(self) -> bool {
        terminated(self.bytes@)
    }

    /// Appends the terminator to `text`, unless `text` already holds a zero
    /// byte somewhere.
    pub fn new(text: Vec<u8>) -> (made: Result<NulTerminated, Error>)
        ensures
            match made {
                Ok(closed) => !text@.contains(0u8) && closed@ == text@.push(0u8),
                Err(error) => text@.contains(0u8) && error is FileContainsNil,
            },
    {
        let mut at: usize = 0;
        while at < text.len()
            invariant
                at <= text@.len(),
                forall|i: int| 0 <= i < at ==> text@[i] != 0,
            decreases text@.len() - at,
        {
            if text[at] == 0 {
                return Err(Error::FileContainsNil);
            }
            at = at + 1;
        }
        let mut bytes = text;
        bytes.push(0u8);
        assert(bytes@.drop_last() =~= text@);
        Ok(NulTerminated { bytes })
    }

    /// The bytes, terminator included.
    pub fn as_bytes(&self) -> (bytes: &Vec<u8>)
        ensures
            bytes@ == self@,
            terminated(bytes@),
    {
        proof {
            use_type_invariant(self);
        }
        &self.bytes
    }

    /// Gives up the bytes, terminator included.
    pub fn into_bytes(self) -> (bytes: Vec<u8>)
        ensures
            bytes@ == self@,
            terminated(bytes@),
    {
        proof {
            use_type_invariant(&self);
        }
        self.bytes
    }
}

/// The terminated text made of what reading a file gave, as a mathematical
/// value: the bytes with the terminator appended, or the reason for none.
pub open spec fn loaded(read: Result<Seq<u8>, std::io::Error>) -> Result<Seq<u8>, Error> {
    match read {
        Err(error) => Err(Error::Io(error)),
        Ok(bytes) => if bytes.contains(0u8) {
            Err(Error::FileContainsNil)
        } else {
            Ok(bytes.push(0u8))
        },
    }
}

/// The view of what [`LoadJob::resume`] ends with.
pub open spec fn load_outcome_view(outcome: Result<NulTerminated, Error>) -> Result<
    Seq<u8>,
    Error,
> {
    match outcome {
        Ok(text) => Ok(text@),
        Err(error) => Err(error),
    }
}

/// The directory below which the resources lie.
#[derive(Debug)]
pub struct Resources {
    root_path: PathBuf,
}

impl View for Resources {
    type V = Seq<u8>;

    /// The bytes of the root path.
    closed spec fn view(&self) -> Seq<u8> {
        path_text(self.root_path)
    }
}

/// The bytes of the directory that holds the executable, where `exe` is what
/// asking for the executable's own path gave.
pub open spec fn exe_dir(exe: Result<PathBuf, std::io::Error>) -> Option<Seq<u8>> {
    match exe {
        Ok(file) => parent_text(path_text(file)),
        Err(_) => None,
    }
}

/// A turn of a load: its requests, and the job that waits or the text that
/// was made.
pub type LoadStep = Step<LoadJob, Result<NulTerminated, Error>>;

/// A turn of a load as a mathematical value.
pub type LoadTurn = Turn<LoadJob, Result<Seq<u8>, Error>>;

/// The first turn of loading the resource `resource_name` below the root
/// with the bytes `root`: one request, to read the file at the resource's
/// path.
pub open spec fn load_start(root: Seq<u8>, resource_name: Seq<char>) -> LoadTurn {
    Turn {
        requests: seq![RequestView::ReadFile { path: located(root, segments(resource_name)) }],
        next: Next::Await(LoadJob {  }),
    }
}

/// A load that waits for the contents of the file it asked for.
#[derive(Debug)]
pub struct LoadJob {}

impl Resources {
    /// The resources at `path` relative to the directory of the executable.
    /// `exe_file_name` is what `std::env::current_exe` gave.
    pub fn from_relative_exe_path(
        exe_file_name: Result<PathBuf, std::io::Error>,
        path: &PathBuf,
    ) -> (made: Result<Resources, Error>)
        ensures
            match exe_dir(exe_file_name) {
                Some(dir) => (made matches Ok(resources) && resources@ == joined(
                    dir,
                    path_text(*path),
                )),
                None => made matches Err(Error::FailedToGetExePath),
            },
    {
        match exe_file_name {
            Err(_) => Err(Error::FailedToGetExePath),
            Ok(file) => match parent(&file) {
                None => Err(Error::FailedToGetExePath),
                Some(dir) => Ok(Resources { root_path: join(&dir, path) }),
            },
        }
    }

    /// The path of the resource `resource_name` below the root.
    pub fn path_of(&self, resource_name: &str) -> (path: PathBuf)
        ensures
            path_text(path) == located(self@, segments(resource_name@)),
    {
        resource_name_to_path(&self.root_path, resource_name)
    }

    /// Starts to load the resource `resource_name` as NUL-terminated text:
    /// asks for the file to be read. Nothing is cached: every load reads.
    pub fn load_cstring(&self, resource_name: &str) -> (step: LoadStep)
        ensures
            step@ == load_start(self@, resource_name@),
    {
        let mut requests: Vec<Request> = Vec::new();
        requests.push(Request::ReadFile { path: self.path_of(resource_name) });
        let step: LoadStep = Step { requests, next: Next::Await(LoadJob {  }) };
        assert(step@.requests =~= load_start(self@, resource_name@).requests);
        step
    }
}

impl View for LoadStep {
    type V = LoadTurn;

    open spec fn view(&self) -> Self::V {
        Turn {
            requests: self.requests.deep_view(),
            next: match self.next {
                Next::Await(job) => Next::Await(job),
                Next::Done(outcome) => Next::Done(load_outcome_view(outcome)),
            },
        }
    }
}

impl LoadJob {
    /// How a load takes a reply, as a mathematical value: the contents of
    /// the file end it; any other reply is not taken.
    pub open spec fn resumed(self, reply: ReplyView) -> Option<LoadTurn> {
        match reply {
            ReplyView::File(read) => Some(
                Turn { requests: Seq::empty(), next: Next::Done(loaded(read)) },
            ),
            _ => None,
        }
    }

    /// Takes the reply to the read: the contents become terminated text,
    /// unless the read failed or the contents hold a zero byte.
    pub fn resume(self, reply: Reply) -> (step: Option<LoadStep>)
        ensures
            match step {
                Some(step) => self.resumed(reply@) == Some(step@),
                None => self.resumed(reply@) is None,
            },
    {
        match reply {
            Reply::File(read) => {
                let outcome = match read {
                    Err(error) => Err(Error::from(error)),
                    Ok(bytes) => NulTerminated::new(bytes),
                };
                let step: LoadStep = Step { requests: Vec::new(), next: Next::Done(outcome) };
                assert(step@.requests =~= Seq::<RequestView>::empty());
                Some(step)
            },
            _ => None,
        }
    }
}

} // verus!
