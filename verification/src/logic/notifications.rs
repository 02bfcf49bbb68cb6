//! The daily "airing today" notification run, as a state machine: the
//! caller performs each step (a database query, a send) and reports back.
//! Every (episode × channel) pair not yet logged is sent once; a pair is
//! logged only after its send succeeded, so a failed send is retried on the
//! next run.
use vstd::prelude::*;
use crate::db::queries::NotifiableEpisode;
use crate::notifications::event::NotificationEvent;
use crate::text::{owned, views};

verus! {

/// Whether `ev` announces `ep` as airing today: show, season and episode
/// numbers and providers carried over, a missing title becomes empty.
pub open spec fn is_airing_event(ev: NotificationEvent, ep: NotifiableEpisode) -> bool {
    ev matches NotificationEvent::EpisodeAiringToday {
        show_name,
        season,
        episode,
        title,
        where_to_watch,
    } && show_name@ == ep.show_name@ && season == ep.season_number && episode == ep.episode_number && title@ == (match ep.episode_name {
        Some(t) => t@,
        None => Seq::<char>::empty(),
    }) && views(where_to_watch@) == views(ep.watch_providers@)
}

/// The event announcing an episode that airs today.
pub fn build_event(ep: &NotifiableEpisode) -> (r: NotificationEvent)
    ensures
        is_airing_event(r, *ep),
{
    let title = match &ep.episode_name {
        Some(t) => t.clone(),
        None => String::new(),
    };
    let providers = ep.watch_providers.clone();
    assert(views(providers@) =~= views(ep.watch_providers@));
    NotificationEvent::EpisodeAiringToday {
        show_name: ep.show_name.clone(),
        season: ep.season_number,
        episode: ep.episode_number,
        title,
        where_to_watch: providers,
    }
}

/// What the caller is asked to do next.
pub enum NotifyStep {
    /// Load the episodes airing today (those of shows with notifications on).
    LoadEpisodes,
    /// Ask whether this episode was already notified on this channel.
    CheckLogged { show_tmdb_id: i64, season_number: i64, episode_number: i64, channel: String },
    /// Send the event on this channel.
    Send { channel: String, event: NotificationEvent },
    /// Log that this episode was notified on this channel.
    Record { show_tmdb_id: i64, season_number: i64, episode_number: i64, channel: String },
    /// The run is over; `sent` notifications went out.
    Finished { sent: usize },
}

pub enum NotifyPhase {
    AwaitEpisodes,
    AwaitLogged,
    AwaitSend,
    AwaitRecord,
    Done,
}

/// What became of one (episode, channel) pair of a run.
pub enum PairOutcome {
    /// It was logged already, so nothing was sent.
    AlreadyLogged,
    /// Its send failed; it stays unlogged for the next run.
    SendFailed,
    /// It was sent and then logged.
    Recorded,
}

/// How many outcomes are `Recorded`.
pub open spec fn recorded_count(outcomes: Seq<PairOutcome>) -> nat
    decreases outcomes.len(),
{
    if outcomes.len() == 0 {
        0
    } else {
        recorded_count(outcomes.drop_last()) + if outcomes.last() is Recorded {
            1nat
        } else {
            0nat
        }
    }
}

/// The state of one run: the channels, today's episodes, the pair in hand,
/// how many notifications went out so far, and what became of each pair
/// handled before the one in hand.
pub struct NotifyRun {
    channels: Vec<String>,
    episodes: Vec<NotifiableEpisode>,
    episode: usize,
    channel: usize,
    sent: usize,
    phase: NotifyPhase,
    outcomes: Ghost<Seq<PairOutcome>>,
}

/// The pair after `(e, c)` in episode-major order, if any.
pub open spec fn next_pair(e: int, c: int, n_episodes: int, n_channels: int) -> Option<(int, int)> {
    if c + 1 < n_channels {
        Some((e, c + 1))
    } else if e + 1 < n_episodes {
        Some((e + 1, 0))
    } else {
        None
    }
}

impl NotifyRun {
    pub closed spec fn phase(&self) -> NotifyPhase {
        self.phase
    }

    pub closed spec fn channel_list(&self) -> Seq<Seq<char>> {
        views(self.channels@)
    }

    pub closed spec fn episode_list(&self) -> Seq<NotifiableEpisode> {
        self.episodes@
    }

    /// The (episode, channel) pair in hand.
    pub closed spec fn pair(&self) -> (int, int) {
        (self.episode as int, self.channel as int)
    }

    pub closed spec fn sent_count(&self) -> nat {
        self.sent as nat
    }

    /// The outcome of each pair handled so far, in episode-major order.
    pub closed spec fn outcomes(&self) -> Seq<PairOutcome> {
        self.outcomes@
    }

    /// Pairs handled before the one in hand, in episode-major order.
    pub open spec fn position(&self) -> int {
        self.pair().0 * self.channel_list().len() + self.pair().1
    }

    /// The phase's pair lies in range; each pair before it has exactly one
    /// outcome (all pairs, once the run is done); the count sent is the
    /// number of pairs recorded.
    pub open spec fn wf(&self) -> bool {
        &&& (self.phase() is AwaitLogged || self.phase() is AwaitSend
            || self.phase() is AwaitRecord) ==> {
            &&& 0 <= self.pair().0 < self.episode_list().len()
            &&& 0 <= self.pair().1 < self.channel_list().len()
            &&& self.sent_count() <= self.position()
            &&& self.outcomes().len() == self.position()
        }
        &&& self.phase() is AwaitEpisodes ==> self.sent_count() == 0
            && self.channel_list().len() > 0 && self.outcomes().len() == 0
        &&& self.phase() is Done ==> self.outcomes().len() == self.episode_list().len()
            * self.channel_list().len()
        &&& self.sent_count() == recorded_count(self.outcomes())
    }

    /// `step` is what the state asks for.
    pub open spec fn asks(&self, step: NotifyStep) -> bool {
        let (e, c) = self.pair();
        match self.phase() {
            NotifyPhase::AwaitEpisodes => step is LoadEpisodes,
            NotifyPhase::AwaitLogged => step matches NotifyStep::CheckLogged {
                show_tmdb_id,
                season_number,
                episode_number,
                channel,
            } && show_tmdb_id == self.episode_list()[e].show_tmdb_id && season_number
                == self.episode_list()[e].season_number && episode_number
                == self.episode_list()[e].episode_number && channel@ == self.channel_list()[c],
            NotifyPhase::AwaitSend => step matches NotifyStep::Send { channel, event }
                && channel@ == self.channel_list()[c] && is_airing_event(
                event,
                self.episode_list()[e],
            ),
            NotifyPhase::AwaitRecord => step matches NotifyStep::Record {
                show_tmdb_id,
                season_number,
                episode_number,
                channel,
            } && show_tmdb_id == self.episode_list()[e].show_tmdb_id && season_number
                == self.episode_list()[e].season_number && episode_number
                == self.episode_list()[e].episode_number && channel@ == self.channel_list()[c],
            NotifyPhase::Done => step matches NotifyStep::Finished { sent } && sent
                == self.sent_count(),
        }
    }

    /// `after` is `before` moved past its pair: on to the next pair's check,
    /// or finished.
    pub open spec fn advanced(before: &NotifyRun, after: &NotifyRun) -> bool {
        &&& after.channel_list() == before.channel_list()
        &&& after.episode_list() == before.episode_list()
        &&& after.sent_count() == before.sent_count()
        &&& match next_pair(
            before.pair().0,
            before.pair().1,
            before.episode_list().len() as int,
            before.channel_list().len() as int,
        ) {
            Some(p) => after.phase() is AwaitLogged && after.pair() == p,
            None => after.phase() is Done,
        }
    }

    /// Starts a run over the configured channels: with none there is
    /// nothing to do, otherwise today's episodes are needed.
    pub fn start(channels: Vec<String>) -> (r: (NotifyRun, NotifyStep))
        ensures
            r.0.wf(),
            r.0.asks(r.1),
            r.0.channel_list() == views(channels@),
            r.0.sent_count() == 0,
            r.0.outcomes().len() == 0,
            channels@.len() == 0 ==> r.0.phase() is Done,
            channels@.len() > 0 ==> r.0.phase() is AwaitEpisodes,
    {
        let empty = channels.len() == 0;
        let run = NotifyRun {
            channels,
            episodes: Vec::new(),
            episode: 0,
            channel: 0,
            sent: 0,
            phase: if empty {
                NotifyPhase::Done
            } else {
                NotifyPhase::AwaitEpisodes
            },
            outcomes: Ghost(Seq::empty()),
        };
        if empty {
            (run, NotifyStep::Finished { sent: 0 })
        } else {
            (run, NotifyStep::LoadEpisodes)
        }
    }

    /// How many notifications went out so far.
    pub fn sent(&self) -> (r: usize)
        ensures
            r == self.sent_count(),
    {
        self.sent
    }

    fn ask(&self) -> (step: NotifyStep)
        requires
            self.wf(),
        ensures
            self.asks(step),
    {
        match self.phase {
            NotifyPhase::AwaitEpisodes => NotifyStep::LoadEpisodes,
            NotifyPhase::AwaitLogged => {
                let ep = &self.episodes[self.episode];
                NotifyStep::CheckLogged {
                    show_tmdb_id: ep.show_tmdb_id,
                    season_number: ep.season_number,
                    episode_number: ep.episode_number,
                    channel: self.channels[self.channel].clone(),
                }
            },
            NotifyPhase::AwaitSend => NotifyStep::Send {
                channel: self.channels[self.channel].clone(),
                event: build_event(&self.episodes[self.episode]),
            },
            NotifyPhase::AwaitRecord => {
                let ep = &self.episodes[self.episode];
                NotifyStep::Record {
                    show_tmdb_id: ep.show_tmdb_id,
                    season_number: ep.season_number,
                    episode_number: ep.episode_number,
                    channel: self.channels[self.channel].clone(),
                }
            },
            NotifyPhase::Done => NotifyStep::Finished { sent: self.sent },
        }
    }

    /// Records the pair's outcome and moves past the pair, counting a
    /// recorded send.
    fn advance(&mut self, outcome: PairOutcome)
        requires
            old(self).wf(),
            old(self).phase() is AwaitLogged || old(self).phase() is AwaitSend || old(
                self,
            ).phase() is AwaitRecord,
            outcome is Recorded ==> old(self).sent_count() < usize::MAX,
        ensures
            final(self).wf(),
            final(self).channel_list() == old(self).channel_list(),
            final(self).episode_list() == old(self).episode_list(),
            final(self).outcomes() == old(self).outcomes().push(outcome),
            final(self).sent_count() == old(self).sent_count() + if outcome is Recorded {
                1nat
            } else {
                0nat
            },
            match next_pair(
                old(self).pair().0,
                old(self).pair().1,
                old(self).episode_list().len() as int,
                old(self).channel_list().len() as int,
            ) {
                Some(p) => final(self).phase() is AwaitLogged && final(self).pair() == p,
                None => final(self).phase() is Done,
            },
    {
        let n_ch = self.channels.len();
        let n_ep = self.episodes.len();
        proof {
            let e = self.episode as int;
            let nc = n_ch as int;
            assert((e + 1) * nc == e * nc + nc) by (nonlinear_arith);
            let prev = self.outcomes@;
            assert(prev.push(outcome).drop_last() =~= prev);
            self.outcomes = Ghost(prev.push(outcome));
        }
        if let PairOutcome::Recorded = outcome {
            self.sent = self.sent + 1;
        }
        if self.channel + 1 < n_ch {
            self.channel = self.channel + 1;
            self.phase = NotifyPhase::AwaitLogged;
        } else if self.episode + 1 < n_ep {
            self.episode = self.episode + 1;
            self.channel = 0;
            self.phase = NotifyPhase::AwaitLogged;
        } else {
            self.phase = NotifyPhase::Done;
        }
    }

    /// Today's episodes arrived: with none the run is over, otherwise the
    /// first episode is checked on the first channel.
    pub fn on_episodes(&mut self, episodes: Vec<NotifiableEpisode>) -> (step: NotifyStep)
        requires
            old(self).wf(),
            old(self).phase() is AwaitEpisodes,
        ensures
            final(self).wf(),
            final(self).asks(step),
            final(self).channel_list() == old(self).channel_list(),
            final(self).episode_list() == episodes@,
            final(self).sent_count() == 0,
            final(self).outcomes().len() == 0,
            episodes@.len() == 0 ==> final(self).phase() is Done,
            episodes@.len() > 0 ==> final(self).phase() is AwaitLogged && final(self).pair() == (
            0int, 0int),
    {
        let empty = episodes.len() == 0;
        self.episodes = episodes;
        self.episode = 0;
        self.channel = 0;
        proof {
            let nc = self.channels@.len() as int;
            assert(0 * nc == 0) by (nonlinear_arith);
        }
        if empty {
            self.phase = NotifyPhase::Done;
        } else {
            self.phase = NotifyPhase::AwaitLogged;
        }
        self.ask()
    }

    /// Whether the pair in hand was already notified: if so it is skipped,
    /// otherwise its event is sent.
    pub fn on_logged(&mut self, already: bool) -> (step: NotifyStep)
        requires
            old(self).wf(),
            old(self).phase() is AwaitLogged,
        ensures
            final(self).wf(),
            final(self).asks(step),
            already ==> Self::advanced(old(self), final(self)) && final(self).outcomes() == old(
                self,
            ).outcomes().push(PairOutcome::AlreadyLogged),
            !already ==> {
                &&& final(self).outcomes() == old(self).outcomes()
                &&& final(self).phase() is AwaitSend
                &&& final(self).pair() == old(self).pair()
                &&& final(self).sent_count() == old(self).sent_count()
                &&& final(self).channel_list() == old(self).channel_list()
                &&& final(self).episode_list() == old(self).episode_list()
            },
    {
        if already {
            self.advance(PairOutcome::AlreadyLogged);
        } else {
            self.phase = NotifyPhase::AwaitSend;
        }
        self.ask()
    }

    /// The send's outcome: a success is logged next; a failure is not, so
    /// the pair is tried again on the next run.
    pub fn on_sent(&mut self, ok: bool) -> (step: NotifyStep)
        requires
            old(self).wf(),
            old(self).phase() is AwaitSend,
        ensures
            final(self).wf(),
            final(self).asks(step),
            !ok ==> Self::advanced(old(self), final(self)) && final(self).outcomes() == old(
                self,
            ).outcomes().push(PairOutcome::SendFailed),
            ok ==> {
                &&& final(self).outcomes() == old(self).outcomes()
                &&& final(self).phase() is AwaitRecord
                &&& final(self).pair() == old(self).pair()
                &&& final(self).sent_count() == old(self).sent_count()
                &&& final(self).channel_list() == old(self).channel_list()
                &&& final(self).episode_list() == old(self).episode_list()
            },
    {
        if ok {
            self.phase = NotifyPhase::AwaitRecord;
        } else {
            self.advance(PairOutcome::SendFailed);
        }
        self.ask()
    }

    /// The successful send was logged: it counts, and the run moves on.
    pub fn on_recorded(&mut self) -> (step: NotifyStep)
        requires
            old(self).wf(),
            old(self).phase() is AwaitRecord,
            old(self).sent_count() < usize::MAX,
        ensures
            final(self).wf(),
            final(self).asks(step),
            final(self).sent_count() == old(self).sent_count() + 1,
            final(self).outcomes() == old(self).outcomes().push(PairOutcome::Recorded),
            final(self).channel_list() == old(self).channel_list(),
            final(self).episode_list() == old(self).episode_list(),
            match next_pair(
                old(self).pair().0,
                old(self).pair().1,
                old(self).episode_list().len() as int,
                old(self).channel_list().len() as int,
            ) {
                Some(p) => final(self).phase() is AwaitLogged && final(self).pair() == p,
                None => final(self).phase() is Done,
            },
    {
        self.advance(PairOutcome::Recorded);
        self.ask()
    }
}

/// At most one notification goes out per (episode, channel) pair: in every
/// well-formed state of a run, the count sent is at most the number of
/// pairs.
pub proof fn sent_at_most_pairs(run: NotifyRun)
    requires
        run.wf(),
        !(run.phase() is Done),
    ensures
        run.sent_count() <= run.episode_list().len() * run.channel_list().len(),
{
    if !(run.phase() is AwaitEpisodes) {
        let e = run.pair().0;
        let c = run.pair().1;
        let ne = run.episode_list().len() as int;
        let nc = run.channel_list().len() as int;
        assert(e * nc + c <= ne * nc) by (nonlinear_arith)
            requires
                0 <= e < ne,
                0 <= c < nc,
        ;
    }
}

/// A finished run has handled every (episode, channel) pair exactly once,
/// in episode-major order, each with one outcome (already logged, send
/// failed, or sent and recorded), and the count it reports is the number of
/// pairs recorded.
pub proof fn finished_run_accounts_for_every_pair(run: NotifyRun)
    requires
        run.wf(),
        run.phase() is Done,
    ensures
        run.outcomes().len() == run.episode_list().len() * run.channel_list().len(),
        run.sent_count() == recorded_count(run.outcomes()),
{
}

} // verus!
