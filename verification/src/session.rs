//! What is kept from one run to the next: the queue, the place in it and the place in the song.
use vstd::prelude::*;
use crate::model::{self, Song, SongModel};
use crate::state::{account_model, player_model, AccountModel, Player, PlayerModel};
use crate::text;
use crate::update::{App, AppModel};

verus! {

/// What is kept from one run to the next.
#[derive(Debug)]
pub struct Session {
    /// The songs of the queue.
    pub queue: Vec<Song>,
    /// The place of the song that was playing.
    pub cursor: Option<usize>,
    /// How far the song had been played.
    pub position_ms: u64,
    /// The day on which the daily membership was last claimed.
    pub vip_claimed_day: Option<String>,
}

/// What is kept, with texts as character sequences.
pub struct SessionModel {
    pub queue: Seq<SongModel>,
    pub cursor: Option<usize>,
    pub position_ms: u64,
    pub vip_claimed_day: Option<Seq<char>>,
}

impl DeepView for Session {
    type V = SessionModel;

    open spec fn deep_view(&self) -> SessionModel {
        SessionModel {
            queue: self.queue.deep_view(),
            cursor: self.cursor,
            position_ms: self.position_ms,
            vip_claimed_day: self.vip_claimed_day.deep_view(),
        }
    }
}

impl SessionModel {
    /// The song that was playing.
    pub open spec fn song(self) -> Option<SongModel> {
        match self.cursor {
            Some(index) if index < self.queue.len() => Some(self.queue[index as int]),
            _ => None,
        }
    }
}

impl Default for Session {
    fn default() -> (r: Self)
        ensures
            r.queue@.len() == 0,
            r.cursor is None,
            r.position_ms == 0,
            r.vip_claimed_day is None,
    {
        Session { queue: Vec::new(), cursor: None, position_ms: 0, vip_claimed_day: None }
    }
}

/// The file `name` in the directory `dir`.
pub open spec fn file_in(dir: Seq<char>, name: Seq<char>) -> Seq<char> {
    if dir.len() == 0 || dir.last() == '/' {
        dir + name
    } else {
        dir + "/"@ + name
    }
}

/// The file `name` in the directory `dir`.
pub(crate) fn path_in(dir: &str, name: &str) -> (r: String)
    ensures
        r@ == file_in(dir@, name@),
{
    if dir.is_empty() || text::ends_with(dir, "/") {
        proof {
            reveal_strlit("/");
            if dir@.len() > 0 {
                assert(dir@.subrange(dir@.len() - 1, dir@.len() as int)[0]
                    == dir@.last());
            }
        }
        text::join2(dir, name)
    } else {
        proof {
            reveal_strlit("/");
            if dir@.last() == '/' {
                assert(dir@.subrange(
                    dir@.len() - 1,
                    dir@.len() as int,
                ) =~= "/"@);
            }
        }
        text::join3(dir, "/", name)
    }
}

impl Session {
    /// The file in which the session is kept.
    pub fn path(cache_dir: &str) -> (r: String)
        ensures
            r@ == file_in(cache_dir@, "session.json"@),
    {
        path_in(cache_dir, "session.json")
    }

    /// Whether there is nothing to go on with.
    pub fn is_empty(&self) -> (r: bool)
        ensures
            r == (self.queue@.len() == 0),
    {
        self.queue.is_empty()
    }
}

// ---------------------------------------------------------------------------
// From one run to the next
// ---------------------------------------------------------------------------
/// Whether a song, if there is one, has the given hash.
pub open spec fn is_song(song: Option<SongModel>, hash: Seq<char>) -> bool {
    song is Some && song->0.hash == hash
}

impl PlayerModel {
    /// How far the song whose turn it is has been played: while nothing is playing, as far as it is
    /// remembered.
    pub open spec fn reached(self) -> u64 {
        match self.current {
            Some(song) => if is_song(self.queue.playing(), song.hash) {
                self.position_ms
            } else {
                0
            },
            None => match self.resume {
                Some(left) if is_song(self.queue.playing(), left.0) => left.1,
                _ => 0,
            },
        }
    }

    /// The queue is the one that was kept, and the place in the song that was playing is remembered
    /// for that song. Where no queue was kept, everything stays.
    pub open spec fn resuming(self, kept: SessionModel) -> PlayerModel {
        let index: usize = match kept.cursor {
            Some(index) => index,
            None => 0,
        };
        if kept.queue.len() == 0 {
            self
        } else {
            (PlayerModel {
                queue: self.queue.replaced(kept.queue, index),
                resume: match kept.song() {
                    Some(song) => Some((song.hash, kept.position_ms)),
                    None => None,
                },
                ..self
            }).pointing_at(index as int)
        }
    }
}

impl AppModel {
    /// What is kept for the next run.
    pub open spec fn session(self) -> SessionModel {
        SessionModel {
            queue: self.state.player.queue.items,
            cursor: self.state.player.queue.cursor,
            position_ms: self.state.player.reached(),
            vip_claimed_day: self.state.account.vip_claimed_day,
        }
    }

    /// What was kept is taken up again.
    #[verifier::opaque]
    pub open spec fn restored(self, kept: SessionModel) -> AppModel {
        self.played(self.state.player.resuming(kept)).accounted(
            AccountModel { vip_claimed_day: kept.vip_claimed_day, ..self.state.account },
        )
    }
}

impl Player {
    /// How far the song whose turn it is has been played.
    fn reached(&self) -> (r: u64)
        ensures
            r == self.deep_view().reached(),
    {
        let hash = match &self.current {
            Some(song) => song.hash.as_str(),
            None => match &self.resume {
                Some(left) => left.0.as_str(),
                None => {
                    return 0;
                },
            },
        };
        match self.queue.current() {
            Some(song) => {
                if !text::same(song.hash.as_str(), hash) {
                    return 0;
                }
            },
            None => {
                return 0;
            },
        }
        match (&self.current, &self.resume) {
            (None, Some(left)) => left.1,
            _ => self.position_ms,
        }
    }

    /// Takes up the queue that was kept, and the place in its song.
    fn resume_with(&mut self, queue: Vec<Song>, cursor: Option<usize>, position_ms: u64)
        requires
            old(self).deep_view().wf(),
        ensures
            forall|kept: SessionModel|
                kept.queue == queue.deep_view() && kept.cursor == cursor && kept.position_ms
                    == position_ms ==> final(self).deep_view() == (#[trigger] old(
                    self,
                ).deep_view().resuming(kept)),
            final(self).deep_view().wf(),
    {
        if queue.is_empty() {
            return ;
        }
        let index: usize = match cursor {
            Some(index) => index,
            None => 0,
        };
        self.resume = match cursor {
            Some(index) => if index < queue.len() {
                Some((queue[index].hash.clone(), position_ms))
            } else {
                None
            },
            None => None,
        };
        let _ = self.queue.replace_with(queue, index);
        self.point_at(index);
    }
}

impl App {
    /// What is kept for the next run.
    pub fn session(&self) -> (r: Session)
        ensures
            r.deep_view() == self.deep_view().session(),
    {
        proof {
            reveal(player_model);
            reveal(account_model);
        }
        Session {
            queue: model::copy_songs(self.state.player.queue.items()),
            cursor: self.state.player.queue.cursor(),
            position_ms: self.state.player.reached(),
            vip_claimed_day: model::copy_text(&self.state.account.vip_claimed_day),
        }
    }

    /// Takes up again what was kept.
    pub fn restore(&mut self, session: Session)
        requires
            old(self).deep_view().wf(),
        ensures
            final(self).deep_view() == old(self).deep_view().restored(session.deep_view()),
            final(self).deep_view().wf(),
    {
        proof {
            reveal(AppModel::wf);
            reveal(AppModel::restored);
            reveal(player_model);
            reveal(account_model);
        }
        let Session { queue, cursor, position_ms, vip_claimed_day } = session;
        self.state.player.resume_with(queue, cursor, position_ms);
        self.state.account.vip_claimed_day = vip_claimed_day;
    }
}

/// What was kept comes back as it was: a player that has just started and takes it up keeps the same
/// for the run after.
pub proof fn sessions_are_kept(app: AppModel, kept: SessionModel)
    requires
        app.state.player.current is None,
        kept.song() is Some,
    ensures
        app.restored(kept).session() == kept,
{
    reveal(AppModel::restored);
}

/// Ending a run and starting the next brings back the queue, the song and the place in it; that
/// place counts when this song begins and for no other song, and not a second time.
pub proof fn places_are_remembered_for_their_song(
    last: AppModel,
    next: AppModel,
    song: SongModel,
    later: SongModel,
)
    requires
        last.wf(),
        last.state.player.queue.items.len() > 0,
    ensures
        next.restored(last.session()).state.player.queue.items == last.state.player.queue.items,
        next.restored(last.session()).state.player.queue.cursor
            == last.state.player.queue.cursor,
        next.restored(last.session()).starting(song).state.player.position_ms == (if song.hash
            == last.state.player.queue.playing()->0.hash {
            last.state.player.reached()
        } else {
            0
        }),
        next.restored(last.session()).starting(song).starting(later).state.player.position_ms == 0,
{
    reveal(AppModel::wf);
    reveal(AppModel::restored);
    reveal(AppModel::starting);
    reveal(AppModel::not_downloading);
    reveal(AppModel::ordering);
    reveal(AppModel::told);
}

} // verus!
