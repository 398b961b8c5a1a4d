//! Bringing a song to the disk.
//!
//! What comes is written to a file of its own beside the wanted one, which takes the wanted name only
//! when everything has come: half a song is never taken for a whole one.
use vstd::prelude::*;
use vstd::slice::slice_subrange;
use crate::client;
use crate::error::{AppError, ErrorModel};
use crate::model;
use crate::session;
use crate::text;

verus! {

/// The part of a text in front of the first `c`; all of it where there is none.
pub open spec fn before(s: Seq<char>, c: char) -> Seq<char> {
    match text::char_position(s, c) {
        Some(at) => s.take(at),
        None => s,
    }
}

/// The part of a text behind the last `c`; all of it where there is none.
pub open spec fn behind_last(s: Seq<char>, c: char) -> Seq<char> {
    match text::last_char_position(s, c) {
        Some(at) => s.skip(at + 1),
        None => s,
    }
}

/// The kind of file that an ending stands for.
pub open spec fn known_extension(ending: Seq<char>) -> Seq<char> {
    if ending == "flac"@ {
        "flac"@
    } else if ending == "m4a"@ || ending == "mp4"@ {
        "m4a"@
    } else if ending == "aac"@ {
        "aac"@
    } else if ending == "ogg"@ || ending == "oga"@ {
        "ogg"@
    } else if ending == "wav"@ {
        "wav"@
    } else if ending == "ape"@ {
        "ape"@
    } else {
        "mp3"@
    }
}

/// The kind of file at an address, from the end of its path; mp3 where that says nothing.
pub open spec fn extension_of(url: Seq<char>) -> Seq<char> {
    known_extension(model::ascii_lowered(behind_last(before(before(url, '#'), '?'), '.')))
}

/// The part of a text in front of the first `c`.
fn cut_before(s: &[char], c: char) -> (r: &[char])
    ensures
        r@ == before(s@, c),
{
    match text::find_char(s, c) {
        Some(at) => {
            proof {
                text::lemma_position_from(s@, seq![c], 0);
                assert(s@.subrange(0, at as int) =~= s@.take(at as int));
            }
            slice_subrange(s, 0, at)
        },
        None => s,
    }
}

/// The part of a text behind the last `c`.
fn cut_behind_last(s: &[char], c: char) -> (r: &[char])
    ensures
        r@ == behind_last(s@, c),
{
    match text::rfind_char(s, c) {
        Some(at) => {
            let len: usize = s.len();
            let rest = slice_subrange(s, at + 1, len);
            proof {
                assert(rest@ =~= s@.skip(at + 1));
            }
            rest
        },
        None => s,
    }
}

/// The last part of a path.
pub open spec fn file_part(path: Seq<char>) -> Seq<char> {
    behind_last(path, '/')
}

/// A path that ends in the name of a file.
pub open spec fn names_file(path: Seq<char>) -> bool {
    file_part(path).len() > 0 && file_part(path) != "."@ && file_part(path) != ".."@
}

/// Whether a path ends in the name of a file.
pub fn is_file_path(path: &str) -> (r: bool)
    ensures
        r == names_file(path@),
{
    let chars = text::to_chars(path);
    let name = text::from_chars(cut_behind_last(chars.as_slice(), '/'));
    let name = name.as_str();
    !name.is_empty() && !text::same(name, ".") && !text::same(name, "..")
}

/// The path of the file into which a song comes.
pub fn temp_path_for(target: &str) -> (r: String)
    requires
        names_file(target@),
    ensures
        r@ == target@ + ".part"@,
{
    text::join2(target, ".part")
}

/// The path under which a song is kept.
pub fn cache_path(dir: &str, key: &str, extension: &str) -> (r: String)
    ensures
        r@ == session::file_in(dir@, key@ + "."@ + extension@),
{
    let name = text::join3(key, ".", extension);
    session::path_in(dir, name.as_str())
}

/// A song that is coming.
#[derive(Debug)]
pub struct Downloader {
    pub url: String,
    pub target: String,
    /// How many bytes have come.
    pub written: u64,
    /// How many will come, where the server says so.
    pub total: Option<u64>,
    /// Of how many bytes the user was told last.
    pub reported: u64,
}

/// What is done with the file into which a song came.
#[derive(Debug)]
pub enum Ending {
    /// It takes the wanted name.
    Rename { from: String, to: String },
    /// It is removed.
    Remove { path: String },
}

impl Downloader {
    /// The kind of file at an address.
    pub fn extension_from_url(url: &str) -> (r: &'static str)
        ensures
            r@ == extension_of(url@),
    {
        let chars = text::to_chars(url);
        let path = cut_before(cut_before(chars.as_slice(), '#'), '?');
        let ending = model::ascii_lowercase(cut_behind_last(path, '.'));
        let ending = ending.as_str();
        if text::same(ending, "flac") {
            "flac"
        } else if text::same(ending, "m4a") || text::same(ending, "mp4") {
            "m4a"
        } else if text::same(ending, "aac") {
            "aac"
        } else if text::same(ending, "ogg") || text::same(ending, "oga") {
            "ogg"
        } else if text::same(ending, "wav") {
            "wav"
        } else if text::same(ending, "ape") {
            "ape"
        } else {
            "mp3"
        }
    }

    /// The server has answered: the song is coming, or the answer is a refusal.
    pub fn answered(url: String, target: String, status: u16, total: Option<u64>) -> (r: Result<
        Downloader,
        AppError,
    >)
        ensures
            match r {
                Ok(download) => client::success(status) && download.url == url && download.target
                    == target && download.written == 0 && download.total == total
                    && download.reported == 0,
                Err(e) => !client::success(status) && e.deep_view() == (ErrorModel::HttpStatus {
                    path: url@,
                    status,
                }),
            },
    {
        if status >= 200 && status <= 299 {
            Ok(Downloader { url, target, written: 0, total, reported: 0 })
        } else {
            Err(AppError::HttpStatus { path: url, status })
        }
    }

    /// So many bytes have been written. Returns what to tell of it, if anything: how many have come,
    /// and of how many.
    pub fn chunk_written(&mut self, bytes: u64) -> (r: Option<(u64, Option<u64>)>)
        requires
            old(self).written + bytes <= u64::MAX,
        ensures
            final(self).url == old(self).url,
            final(self).target == old(self).target,
            final(self).total == old(self).total,
            final(self).written == old(self).written + bytes,
            r == if tells(old(self).reported, final(self).written, old(self).total) {
                Some((final(self).written, old(self).total))
            } else {
                None
            },
            final(self).reported == if r is Some {
                final(self).written
            } else {
                old(self).reported
            },
    {
        self.written = self.written + bytes;
        if crate::order::tells_progress(self.reported, self.written, self.total) {
            self.reported = self.written;
            Some((self.written, self.total))
        } else {
            None
        }
    }

    /// Nothing more comes, or something went wrong on the way. Returns what is done with the file,
    /// and what came of the download: how many bytes, or why not. A file without contents counts as
    /// failed.
    pub fn finish(self, result: Result<(), AppError>) -> (r: (Ending, Result<u64, AppError>))
        requires
            names_file(self.target@),
        ensures
            match (result, r.1) {
                (Ok(_), Ok(bytes)) => bytes == self.written && bytes > 0,
                (Ok(_), Err(e)) => self.written == 0 && e.deep_view() == ErrorModel::Audio(
                    "从 "@ + self.url@ + " 下载到的内容为空，可能该歌曲需要 VIP 或已下架"@,
                ),
                (Err(cause), Err(e)) => e == cause,
                (Err(_), Ok(_)) => false,
            },
            match r.0 {
                Ending::Rename { from, to } => r.1 is Ok && from@ == self.target@ + ".part"@ && to
                    == self.target,
                Ending::Remove { path } => r.1 is Err && path@ == self.target@ + ".part"@,
            },
    {
        let part = temp_path_for(self.target.as_str());
        match result {
            Ok(_) => if self.written > 0 {
                (Ending::Rename { from: part, to: self.target }, Ok(self.written))
            } else {
                let words = text::join3(
                    "从 ",
                    self.url.as_str(),
                    " 下载到的内容为空，可能该歌曲需要 VIP 或已下架",
                );
                (Ending::Remove { path: part }, Err(AppError::Audio(words)))
            },
            Err(e) => (Ending::Remove { path: part }, Err(e)),
        }
    }
}

/// Whether to tell of so many bytes, after having told of others.
pub open spec fn tells(reported: u64, received: u64, total: Option<u64>) -> bool {
    received - reported >= crate::order::PROGRESS_STEP_BYTES || (total is Some && received
        >= total->0)
}

/// The kind of file does not depend on what follows the path of an address.
pub proof fn queries_do_not_matter(path: Seq<char>, query: Seq<char>)
    requires
        text::char_position(path, '#') is None,
        text::char_position(path, '?') is None,
    ensures
        before(before(path + seq!['?'] + query, '#'), '?') == path,
        before(path + seq!['#'] + query, '#') == path,
{
    let asked = path + seq!['?'] + query;
    lemma_first_of(path, seq!['?'] + query, '?', 0);
    assert(asked =~= path + (seq!['?'] + query));
    let marked = path + seq!['#'] + query;
    lemma_first_of(path, seq!['#'] + query, '#', 0);
    assert(marked =~= path + (seq!['#'] + query));
    assert(marked.take(path.len() as int) =~= path);
    text::lemma_position_from(asked, seq!['#'], 0);
    match text::char_position(asked, '#') {
        Some(at) => {
            let front = asked.take(at);
            lemma_not_in(path, '#', 0);
            assert(at > path.len()) by {
                assert(asked[at] == '#') by {
                    assert(asked.subrange(at, at + 1)[0] == seq!['#'][0]);
                }
                if at < path.len() {
                    assert(asked[at] == path[at]);
                } else if at == path.len() {
                    assert(asked[at] == '?');
                }
            }
            let rest = (seq!['?'] + query).take(at - path.len());
            assert(front =~= path + rest);
            assert(rest[0] == '?');
            lemma_first_of(path, rest, '?', 0);
            assert(front.take(path.len() as int) =~= path);
        },
        None => {
            assert(asked.take(path.len() as int) =~= path);
        },
    }
}

/// What is not found in a text from a place on does not stand there.
proof fn lemma_not_in(s: Seq<char>, c: char, from: int)
    requires
        0 <= from <= s.len(),
        text::position_from(s, seq![c], from) is None,
    ensures
        forall|i: int| from <= i < s.len() ==> s[i] != c,
    decreases s.len() - from,
{
    if from < s.len() {
        assert(s.subrange(from, from + 1) =~= seq![s[from]]);
        lemma_not_in(s, c, from + 1);
    }
}

/// What does not stand in the first of two texts and begins the second is found at the seam.
proof fn lemma_first_of(first: Seq<char>, second: Seq<char>, c: char, from: int)
    requires
        0 <= from <= first.len(),
        text::position_from(first, seq![c], from) is None,
        second.len() > 0,
        second[0] == c,
    ensures
        text::position_from(first + second, seq![c], from) == Some(first.len() as int),
    decreases first.len() - from,
{
    let both = first + second;
    if from < first.len() {
        lemma_not_in(first, c, from);
        assert(both.subrange(from, from + 1) =~= seq![first[from]]);
        assert(!text::occurs_at(both, seq![c], from)) by {
            assert(both.subrange(from, from + 1)[0] == first[from]);
        }
        lemma_first_of(first, second, c, from + 1);
    } else {
        assert(both.subrange(from, from + 1) =~= seq![c]);
    }
}

/// The kind of a file is that of its ending, written small; kinds that hold the same sort of sound
/// share a name, and what is not known counts as mp3.
pub proof fn endings_name_their_kind(ending: Seq<char>)
    ensures
        ending == "flac"@ || ending == "m4a"@ || ending == "aac"@ || ending == "ogg"@ || ending
            == "wav"@ || ending == "ape"@ || ending == "mp3"@ ==> known_extension(ending) == ending,
        known_extension("mp4"@) == known_extension("m4a"@),
        known_extension("oga"@) == known_extension("ogg"@),
        known_extension(known_extension(ending)) == known_extension(ending),
{
    reveal_strlit("flac");
    reveal_strlit("m4a");
    reveal_strlit("mp4");
    reveal_strlit("aac");
    reveal_strlit("ogg");
    reveal_strlit("oga");
    reveal_strlit("wav");
    reveal_strlit("ape");
    reveal_strlit("mp3");
    assert("m4a"@[1] != "mp4"@[1]);
    assert("m4a"@[0] != "aac"@[0]);
    assert("m4a"@[0] != "ogg"@[0]);
    assert("m4a"@[0] != "oga"@[0]);
    assert("m4a"@[0] != "wav"@[0]);
    assert("m4a"@[0] != "ape"@[0]);
    assert("m4a"@[1] != "mp3"@[1]);
    assert("mp4"@[0] != "aac"@[0]);
    assert("mp4"@[0] != "ogg"@[0]);
    assert("mp4"@[0] != "oga"@[0]);
    assert("mp4"@[0] != "wav"@[0]);
    assert("mp4"@[0] != "ape"@[0]);
    assert("mp4"@[2] != "mp3"@[2]);
    assert("aac"@[0] != "ogg"@[0]);
    assert("aac"@[0] != "oga"@[0]);
    assert("aac"@[0] != "wav"@[0]);
    assert("aac"@[1] != "ape"@[1]);
    assert("aac"@[0] != "mp3"@[0]);
    assert("ogg"@[2] != "oga"@[2]);
    assert("ogg"@[0] != "wav"@[0]);
    assert("ogg"@[0] != "ape"@[0]);
    assert("ogg"@[0] != "mp3"@[0]);
    assert("oga"@[0] != "wav"@[0]);
    assert("oga"@[0] != "ape"@[0]);
    assert("oga"@[0] != "mp3"@[0]);
    assert("wav"@[0] != "ape"@[0]);
    assert("wav"@[0] != "mp3"@[0]);
    assert("ape"@[0] != "mp3"@[0]);
}

} // verus!
