use vstd::prelude::*;
use crate::errors::ReadError;
use crate::header::{extract, spec_extract};
use crate::payload::FileBuffer;

verus! {

/// Ghost state of the file tracker: the current file (display name and
/// bytes), the column headers derived from it, and the generation of the
/// most recent selection.
pub struct FileState {
    pub file: Option<(Seq<char>, Seq<u8>)>,
    pub headers: Seq<Seq<char>>,
    pub generation: nat,
}

/// The headers shown for a buffer: the extracted column names, or none when
/// extraction fails. A parse failure only degrades state; the operator may
/// retry with a different file.
pub open spec fn headers_of(bytes: Seq<u8>) -> Seq<Seq<char>> {
    match spec_extract(bytes) {
        Some(cols) => cols,
        None => Seq::empty(),
    }
}

/// Effect of starting a new selection: it supersedes every earlier one by
/// taking a fresh generation, handed out as the token that the eventual
/// read completion must present.
pub open spec fn spec_begin(s: FileState) -> (FileState, nat) {
    (
        FileState { file: s.file, headers: s.headers, generation: s.generation + 1 },
        s.generation + 1,
    )
}

/// Effect of a read completion. A completion whose token is not the current
/// generation belongs to a superseded selection and is discarded. A current
/// successful read installs the file and regenerates the headers in full;
/// a current failed read clears both.
pub open spec fn spec_complete(
    s: FileState,
    token: nat,
    name: Seq<char>,
    read: Option<Seq<u8>>,
) -> FileState {
    if token != s.generation {
        s
    } else {
        match read {
            Some(bytes) => FileState {
                file: Some((name, bytes)),
                headers: headers_of(bytes),
                generation: s.generation,
            },
            None => FileState { file: None, headers: Seq::empty(), generation: s.generation },
        }
    }
}

/// Effect of an explicit clear: file and headers are emptied, and any
/// in-flight read is superseded.
pub open spec fn spec_clear(s: FileState) -> FileState {
    FileState { file: None, headers: Seq::empty(), generation: s.generation + 1 }
}

/// Superseding a pending read. When two selections are started and the
/// second one's read completes, the state shows the second file — and the
/// first selection's completion, arriving afterwards with its outdated
/// token, is discarded whatever it carries.
pub proof fn lemma_latest_selection_wins(
    s: FileState,
    name_a: Seq<char>,
    read_a: Option<Seq<u8>>,
    name_b: Seq<char>,
    bytes_b: Seq<u8>,
)
    ensures
        ({
            let (s1, token_a) = spec_begin(s);
            let (s2, token_b) = spec_begin(s1);
            let s3 = spec_complete(s2, token_b, name_b, Some(bytes_b));
            &&& s3.file == Some((name_b, bytes_b))
            &&& s3.headers == headers_of(bytes_b)
            &&& spec_complete(s3, token_a, name_a, read_a) == s3
        }),
{
}

/// Tracks the one file an upload session works on. Only the latest
/// selection wins: starting a selection hands out a generation token, and a
/// completing read is applied only while its token is still current.
pub struct FileTracker {
    file: Option<FileBuffer>,
    headers: Vec<String>,
    generation: u64,
}

impl View for FileTracker {
    type V = FileState;

    closed spec fn view(&self) -> FileState {
        FileState {
            file: match self.file {
                Some(f) => Some((f.name@, f.bytes@)),
                None => None,
            },
            headers: self.headers.deep_view(),
            generation: self.generation as nat,
        }
    }
}

impl FileTracker {
    /// A tracker with no file loaded.
    pub fn new() -> (s: Self)
        ensures
            s@.file is None,
            s@.headers == Seq::<Seq<char>>::empty(),
            s@.generation == 0,
    {
        let s = FileTracker { file: None, headers: Vec::new(), generation: 0 };
        proof {
            assert(s@.headers =~~= Seq::<Seq<char>>::empty());
        }
        s
    }

    /// Starts a new selection, superseding any earlier one still in flight,
    /// and returns the token its read completion must present.
    pub fn begin_select(&mut self) -> (token: u64)
        requires
            old(self)@.generation < u64::MAX,
        ensures
            final(self)@ == spec_begin(old(self)@).0,
            token as nat == spec_begin(old(self)@).1,
    {
        self.generation = self.generation + 1;
        self.generation
    }

    /// Applies the outcome of the read started under `token`. A stale
    /// completion is discarded. On a successful current read the file is
    /// installed and the headers are regenerated in full from its first
    /// record, empty when parsing fails; on a failed current read the file
    /// and headers are cleared and the operator may simply retry.
    pub fn complete_read(&mut self, token: u64, name: String, read: Result<Vec<u8>, ReadError>)
        ensures
            final(self)@ == spec_complete(
                old(self)@,
                token as nat,
                name@,
                match read {
                    Ok(b) => Some(b@),
                    Err(_) => None,
                },
            ),
    {
        if token != self.generation {
            return ;
        }
        match read {
            Ok(bytes) => {
                let headers = match extract(&bytes) {
                    Ok(cols) => cols,
                    Err(_) => Vec::new(),
                };
                proof {
                    assert(headers.deep_view() =~~= headers_of(bytes@));
                }
                self.headers = headers;
                self.file = Some(FileBuffer { name, bytes });
            },
            Err(_) => {
                self.file = None;
                self.headers = Vec::new();
                proof {
                    assert(self@.headers =~~= Seq::<Seq<char>>::empty());
                }
            },
        }
    }

    /// Empties the file and header state; any in-flight read is superseded.
    pub fn clear(&mut self)
        requires
            old(self)@.generation < u64::MAX,
        ensures
            final(self)@ == spec_clear(old(self)@),
    {
        self.file = None;
        self.headers = Vec::new();
        self.generation = self.generation + 1;
        proof {
            assert(self@.headers =~~= Seq::<Seq<char>>::empty());
        }
    }

    /// The current file, if one is loaded.
    pub fn current_file(&self) -> (f: Option<&FileBuffer>)
        ensures
            match f {
                Some(fb) => self@.file == Some((fb.name@, fb.bytes@)),
                None => self@.file is None,
            },
    {
        self.file.as_ref()
    }

    /// The current column headers.
    pub fn headers(&self) -> (h: &Vec<String>)
        ensures
            h.deep_view() == self@.headers,
    {
        &self.headers
    }
}

} // verus!
