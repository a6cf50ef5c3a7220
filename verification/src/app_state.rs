//! The state that the whole program shares: the settings and the registry of
//! active downloads.

use vstd::prelude::*;
use tokio::sync::mpsc::{Receiver, Sender};
use crate::config::{Config, ConfigView};
use crate::registry::{after_remove, after_start, cancel_signalled, start_accepted, DownloadRegistry};

verus! {

pub struct AppState {
    config: Config,
    current_downloads: DownloadRegistry,
}

impl AppState {
    /// The settings.
    pub closed spec fn config(&self) -> ConfigView {
        self.config@
    }

    /// The active downloads, each with the sending half of its control
    /// channel.
    pub closed spec fn downloads(&self) -> Map<Seq<char>, Sender<()>> {
        self.current_downloads@
    }

    /// The keys of the active downloads.
    pub open spec fn active(&self) -> Set<Seq<char>> {
        self.downloads().dom()
    }

    /// For each download that was started and not released since, the
    /// receiving half of its control channel, as its start handed it out.
    pub closed spec fn handed_out(&self) -> Map<Seq<char>, Receiver<()>> {
        self.current_downloads.handed_out()
    }

    /// The state at the start of the program: the settings as they were
    /// found, and no download.
    pub fn init(config: Config) -> (state: AppState)
        ensures
            state.config() == config@,
            state.downloads() == Map::<Seq<char>, Sender<()>>::empty(),
            state.active() == Set::<Seq<char>>::empty(),
            state.handed_out() == Map::<Seq<char>, Receiver<()>>::empty(),
    {
        let state = AppState { config, current_downloads: DownloadRegistry::new() };
        assert(state.active() =~= Set::<Seq<char>>::empty());
        state
    }

    /// The settings to go by: those that were stored, or the defaults where
    /// none were stored yet.
    pub fn handle_config(stored: Option<Config>) -> (config: Config)
        ensures
            config@ == match stored {
                Some(found) => found@,
                None => crate::config::default_view(),
            },
    {
        match stored {
            Some(found) => found,
            None => Config::default(),
        }
    }

    pub fn get_config(&self) -> (config: Config)
        ensures
            config@ == self.config(),
    {
        self.config.clone()
    }

    pub fn set_skip_homepage(&mut self, new_preference: bool)
        ensures
            final(self).config() == (ConfigView {
                skip_homepage: new_preference,
                ..old(self).config()
            }),
            final(self).downloads() == old(self).downloads(),
            final(self).handed_out() == old(self).handed_out(),
    {
        self.config.set_skip_homepage(new_preference);
    }

    /// Enters `sender` as the control channel of the download `url`, unless a
    /// download runs under that url. Tells whether it was entered.
    pub fn add_download(&mut self, url: String, sender: Sender<()>) -> (accepted: bool)
        ensures
            accepted == start_accepted(old(self).active(), url@),
            accepted ==> final(self).downloads() == old(self).downloads().insert(url@, sender),
            !accepted ==> final(self).downloads() == old(self).downloads(),
            final(self).active() == after_start(old(self).active(), url@),
            final(self).handed_out() == old(self).handed_out(),
            final(self).config() == old(self).config(),
    {
        self.current_downloads.insert_if_absent(url, sender)
    }

    /// The control channel of the download `url`, if one runs.
    pub fn get_download(&self, url: &str) -> (sender: Option<&Sender<()>>)
        ensures
            sender is Some <==> self.active().contains(url@),
            sender matches Some(found) ==> *found == self.downloads()[url@],
    {
        self.current_downloads.get(url)
    }

    /// Starts a download under `url`, if none runs under it, and hands out
    /// the receiving half of its control channel.
    pub fn start_download(&mut self, url: String) -> (control: Option<Receiver<()>>)
        ensures
            control is Some <==> start_accepted(old(self).active(), url@),
            final(self).active() == after_start(old(self).active(), url@),
            final(self).downloads().remove(url@) == old(self).downloads().remove(url@),
            control is None ==> final(self).downloads() == old(self).downloads(),
            control matches Some(receiver) ==> final(self).handed_out() == old(
                self,
            ).handed_out().insert(url@, receiver),
            control is None ==> final(self).handed_out() == old(self).handed_out(),
            final(self).config() == old(self).config(),
    {
        self.current_downloads.start(url)
    }

    /// Signals the download `url` to stop, if one runs. Tells whether one
    /// did.
    pub fn cancel_download(&self, url: &str) -> (signalled: bool)
        ensures
            signalled == cancel_signalled(self.active(), url@),
    {
        self.current_downloads.cancel(url)
    }

    /// Releases the entry of the download `url`, if there is one.
    pub fn remove_download(&mut self, url: &str)
        ensures
            final(self).downloads() == old(self).downloads().remove(url@),
            final(self).active() == after_remove(old(self).active(), url@),
            final(self).handed_out() == old(self).handed_out().remove(url@),
            final(self).config() == old(self).config(),
    {
        self.current_downloads.remove(url);
    }
}

} // verus!
