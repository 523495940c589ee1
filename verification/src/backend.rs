//! The interface's side: which of its commands leave for the worker, and a
//! record of the playlist requests among them for whoever wants to watch.

use vstd::prelude::*;

use crate::events::Command;
use crate::models::{PlayableItem, PlayerCommand};
use crate::requests::ApiRequest;
use crate::text::copy_texts;

verus! {

/// The interface's handle to the worker. Each method that sends gives back the
/// command that is to be put on the worker's queue, if any.
pub struct Backend {
    /// Stops Spotify-bound commands from leaving the process.
    pub offline: bool,
    /// Whether playlist requests are recorded.
    pub recording: bool,
    pub playlist_item_requests: Vec<(String, u32, u64)>,
    pub playlist_sample_requests: Vec<(String, u32, u64)>,
    pub playlist_add_requests: Vec<ApiRequest>,
}

/// A request to add to a playlist, or to see first whether that would double
/// something.
pub enum AdditionModel {
    Check {
        playlist_id: Seq<char>,
        playlist_name: Seq<char>,
        items: Seq<PlayableItem>,
        position: Option<u32>,
    },
    Add {
        playlist_id: Seq<char>,
        playlist_name: Seq<char>,
        uris: Seq<String>,
        position: Option<u32>,
    },
}

/// The addition that a request is, if it is one.
pub open spec fn addition(request: ApiRequest) -> Option<AdditionModel> {
    match request {
        ApiRequest::CheckPlaylistDuplicates { playlist_id, playlist_name, items, position } => Some(
            AdditionModel::Check {
                playlist_id: playlist_id@,
                playlist_name: playlist_name@,
                items: items@,
                position,
            },
        ),
        ApiRequest::AddToPlaylist { playlist_id, playlist_name, uris, position } => Some(
            AdditionModel::Add {
                playlist_id: playlist_id@,
                playlist_name: playlist_name@,
                uris: uris@,
                position,
            },
        ),
        _ => None,
    }
}

/// Page reads as they were recorded: playlist, offset and load generation.
pub open spec fn pages(reads: Seq<(String, u32, u64)>) -> Seq<(Seq<char>, u32, u64)> {
    Seq::new(reads.len(), |i: int| (reads[i].0@, reads[i].1, reads[i].2))
}

/// Additions as they were recorded.
pub open spec fn additions(requests: Seq<ApiRequest>) -> Seq<Option<AdditionModel>> {
    Seq::new(requests.len(), |i: int| addition(requests[i]))
}

/// The content of a [`Backend`].
#[verifier::ext_equal]
pub struct BackendModel {
    pub offline: bool,
    pub recording: bool,
    pub items: Seq<(Seq<char>, u32, u64)>,
    pub samples: Seq<(Seq<char>, u32, u64)>,
    pub additions: Seq<Option<AdditionModel>>,
}

impl View for Backend {
    type V = BackendModel;

    open spec fn view(&self) -> BackendModel {
        BackendModel {
            offline: self.offline,
            recording: self.recording,
            items: pages(self.playlist_item_requests@),
            samples: pages(self.playlist_sample_requests@),
            additions: additions(self.playlist_add_requests@),
        }
    }
}

impl BackendModel {
    /// Whether a command leaves for the worker: offline, only artwork and
    /// shutdown do.
    pub open spec fn passes(self, command: Command) -> bool {
        !self.offline || command is Accent || command is Shutdown
    }

    /// What leaves for the worker.
    pub open spec fn sent(self, command: Command) -> Option<Command> {
        if self.passes(command) {
            Some(command)
        } else {
            None
        }
    }

    /// The record once a request has been made.
    pub open spec fn recorded(self, request: ApiRequest) -> BackendModel {
        if !self.recording {
            self
        } else {
            match request {
                ApiRequest::PlaylistItems { id, offset, generation } => BackendModel {
                    items: self.items.push((id@, offset, generation)),
                    ..self
                },
                ApiRequest::PlaylistSample { id, offset, generation } => BackendModel {
                    samples: self.samples.push((id@, offset, generation)),
                    ..self
                },
                ApiRequest::CheckPlaylistDuplicates { .. }
                | ApiRequest::AddToPlaylist { .. } => BackendModel {
                    additions: self.additions.push(addition(request)),
                    ..self
                },
                _ => self,
            }
        }
    }
}

fn copy_items(items: &Vec<PlayableItem>) -> (copy: Vec<PlayableItem>)
    ensures
        copy@ == items@,
{
    let mut copy: Vec<PlayableItem> = Vec::new();
    let mut i: usize = 0;
    while i < items.len()
        invariant
            i <= items@.len(),
            copy@ == items@.take(i as int),
        decreases items@.len() - i,
    {
        copy.push(items[i].clone());
        i += 1;
    }
    copy
}

impl Backend {
    /// A handle that is online, with nothing recorded.
    pub fn new(recording: bool) -> (backend: Backend)
        ensures
            backend@ == (BackendModel {
                offline: false,
                recording,
                items: Seq::empty(),
                samples: Seq::empty(),
                additions: Seq::empty(),
            }),
    {
        let backend = Backend {
            offline: false,
            recording,
            playlist_item_requests: Vec::new(),
            playlist_sample_requests: Vec::new(),
            playlist_add_requests: Vec::new(),
        };
        assert(backend@.items =~= Seq::empty());
        assert(backend@.samples =~= Seq::empty());
        assert(backend@.additions =~= Seq::empty());
        backend
    }

    /// Stops Spotify-bound commands from leaving the process; artwork and
    /// shutdown still work. Used by the demo mode and by headless tests.
    pub fn set_offline(&mut self, offline: bool)
        ensures
            final(self)@ == (BackendModel { offline, ..old(self)@ }),
    {
        self.offline = offline;
    }

    /// Sends a command.
    pub fn send(&self, command: Command) -> (sent: Option<Command>)
        ensures
            sent == self@.sent(command),
    {
        if self.offline {
            match command {
                Command::Accent { .. } | Command::Shutdown => Some(command),
                _ => None,
            }
        } else {
            Some(command)
        }
    }

    fn record(&mut self, request: &ApiRequest)
        ensures
            final(self)@ == old(self)@.recorded(*request),
    {
        if !self.recording {
            return;
        }
        match request {
            ApiRequest::PlaylistItems { id, offset, generation } => {
                self.playlist_item_requests.push((id.clone(), *offset, *generation));
                assert(self@.items =~= old(self)@.items.push((id@, *offset, *generation)));
            },
            ApiRequest::PlaylistSample { id, offset, generation } => {
                self.playlist_sample_requests.push((id.clone(), *offset, *generation));
                assert(self@.samples =~= old(self)@.samples.push((id@, *offset, *generation)));
            },
            ApiRequest::CheckPlaylistDuplicates { playlist_id, playlist_name, items, position } => {
                self.playlist_add_requests.push(
                    ApiRequest::CheckPlaylistDuplicates {
                        playlist_id: playlist_id.clone(),
                        playlist_name: playlist_name.clone(),
                        items: copy_items(items),
                        position: *position,
                    },
                );
                assert(self@.additions =~= old(self)@.additions.push(addition(*request)));
            },
            ApiRequest::AddToPlaylist { playlist_id, playlist_name, uris, position } => {
                self.playlist_add_requests.push(
                    ApiRequest::AddToPlaylist {
                        playlist_id: playlist_id.clone(),
                        playlist_name: playlist_name.clone(),
                        uris: copy_texts(uris),
                        position: *position,
                    },
                );
                assert(self@.additions =~= old(self)@.additions.push(addition(*request)));
            },
            _ => {},
        }
    }

    /// Sends a request to the Web API, and records it where that is asked for.
    pub fn api(&mut self, request: ApiRequest) -> (sent: Option<Command>)
        ensures
            final(self)@ == old(self)@.recorded(request),
            sent == old(self)@.sent(Command::Api(request)),
    {
        self.record(&request);
        self.send(Command::Api(request))
    }

    /// Takes the playlist pages that were asked for since the last time.
    pub fn take_playlist_item_requests(&mut self) -> (taken: Vec<(String, u32, u64)>)
        ensures
            pages(taken@) == old(self)@.items,
            final(self)@ == (BackendModel { items: Seq::empty(), ..old(self)@ }),
    {
        let mut taken: Vec<(String, u32, u64)> = Vec::new();
        std::mem::swap(&mut taken, &mut self.playlist_item_requests);
        assert(self@.items =~= Seq::empty());
        taken
    }

    /// Takes the playlist samples that were asked for since the last time.
    pub fn take_playlist_sample_requests(&mut self) -> (taken: Vec<(String, u32, u64)>)
        ensures
            pages(taken@) == old(self)@.samples,
            final(self)@ == (BackendModel { samples: Seq::empty(), ..old(self)@ }),
    {
        let mut taken: Vec<(String, u32, u64)> = Vec::new();
        std::mem::swap(&mut taken, &mut self.playlist_sample_requests);
        assert(self@.samples =~= Seq::empty());
        taken
    }

    /// Takes the additions that were asked for since the last time.
    pub fn take_playlist_add_requests(&mut self) -> (taken: Vec<ApiRequest>)
        ensures
            additions(taken@) == old(self)@.additions,
            final(self)@ == (BackendModel { additions: Seq::empty(), ..old(self)@ }),
    {
        let mut taken: Vec<ApiRequest> = Vec::new();
        std::mem::swap(&mut taken, &mut self.playlist_add_requests);
        assert(self@.additions =~= Seq::empty());
        taken
    }

    /// Sends an order to the local engine.
    pub fn player(&self, command: PlayerCommand) -> (sent: Option<Command>)
        ensures
            sent == self@.sent(Command::Player(command)),
    {
        self.send(Command::Player(command))
    }

    /// Tells the worker to stop, offline or not.
    pub fn shutdown(&self) -> (sent: Option<Command>)
        ensures
            sent == Some(Command::Shutdown),
    {
        self.send(Command::Shutdown)
    }
}

}
