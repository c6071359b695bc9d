//! The two closed sets of values exchanged over the channel — client
//! commands and server acknowledgements — together with their byte
//! encoding, and the library's error type.
//!
//! The protocol is one request and one reply per connection.  A command
//! payload is a tag byte, followed for [`ClientMessage::Update`] by the
//! configuration snapshot it carries; an acknowledgement payload is a
//! single tag byte.  Both encodings are exact: decoding accepts a byte
//! sequence if and only if it is the encoding of some message, and yields
//! that message.

use vstd::bytes::{
    lemma_auto_spec_u16_to_from_le_bytes, lemma_auto_spec_u64_to_from_le_bytes,
    spec_u16_from_le_bytes, spec_u16_to_le_bytes, spec_u64_from_le_bytes, spec_u64_to_le_bytes,
    u16_from_le_bytes, u16_to_le_bytes, u64_from_le_bytes, u64_to_le_bytes,
};
use vstd::prelude::*;
use vstd::slice::{slice_subrange, slice_to_vec};

verus! {

/// The library's error taxonomy.  Resource errors carry the path they
/// speak of, as the bytes of a filesystem path.
#[derive(Debug)]
pub enum SowmError {
    /// No home directory could be found for the invoking user.
    NoHomeDirectory,
    /// The user's runtime directory for the socket entry was missing or
    /// unwritable.
    NoUserSocketDirectory(Vec<u8>),
    /// The user's configuration directory was missing or unwritable.
    NoConfigDir(Vec<u8>),
    /// A message could not be encoded.
    SerializationFailed,
    /// A byte sequence was not the encoding of any message.
    DeserializationFailed,
    /// The configuration file could not be parsed.
    ConfigParseFail,
}

impl SowmError {
    /// True for the errors that a client cannot recover from: without a
    /// home directory or a socket directory there is nothing to connect to.
    pub fn client_critical(&self) -> (r: bool)
        ensures
            r == (self is NoUserSocketDirectory || self is NoHomeDirectory),
    {
        match self {
            SowmError::NoUserSocketDirectory(_) => true,
            SowmError::NoHomeDirectory => true,
            _ => false,
        }
    }
}

/// Everything the daemon and the client discover at startup: where the
/// configuration lives, where the channel's rendezvous point lies (both as
/// the bytes of filesystem paths), whether that entry already existed, and
/// the configuration itself.
pub struct Init {
    /// Path of the configuration file.
    pub config_path: Vec<u8>,
    /// Path of the channel's rendezvous entry.
    pub socket_file: Vec<u8>,
    /// Whether the rendezvous entry existed when this was built.  A client
    /// expects it to exist; the daemon expects it not to.
    pub does_socket_file_exist: bool,
    /// The configuration snapshot read at startup.
    pub config: Config,
}

/// The configuration snapshot the daemon runs on: how often to advance,
/// whether to shuffle, where the images live (a filesystem path, as
/// bytes), and how many wallpaper slots to fill per advance.
#[derive(Debug, Clone)]
pub struct Config {
    switch_interval_sec: u64,
    shuffle: bool,
    image_dir: Vec<u8>,
    num_monitors: usize,
}

/// The mathematical content of a [`Config`].
pub struct ConfigView {
    pub switch_interval_sec: u64,
    pub shuffle: bool,
    pub image_dir: Seq<u8>,
    pub num_monitors: usize,
}

impl ConfigView {
    /// A snapshot that the wire format can carry: the monitor count and
    /// the path length must both fit 16 bits.
    pub open spec fn wf(self) -> bool {
        self.num_monitors <= 0xFFFF && self.image_dir.len() <= 0xFFFF
    }
}

impl View for Config {
    type V = ConfigView;

    closed spec fn view(&self) -> ConfigView {
        ConfigView {
            switch_interval_sec: self.switch_interval_sec,
            shuffle: self.shuffle,
            image_dir: self.image_dir@,
            num_monitors: self.num_monitors,
        }
    }
}

impl Config {
    /// Builds a snapshot from its four fields.
    pub fn new(switch_interval_sec: u64, shuffle: bool, image_dir: Vec<u8>, num_monitors: usize)
        -> (r: Config)
        ensures
            r@ == (ConfigView {
                switch_interval_sec,
                shuffle,
                image_dir: image_dir@,
                num_monitors,
            }),
    {
        Config { switch_interval_sec, shuffle, image_dir, num_monitors }
    }

    /// Whether the snapshot can drive the engine: it must name an image
    /// directory and at least one wallpaper slot.
    pub fn is_valid(&self) -> (r: bool)
        ensures
            r == (self@.image_dir.len() > 0 && self@.num_monitors >= 1),
    {
        self.image_dir.len() > 0 && self.num_monitors >= 1
    }

    /// The interval between automatic advances, in seconds.
    pub fn switch_interval(&self) -> (r: u64)
        ensures
            r == self@.switch_interval_sec,
    {
        self.switch_interval_sec
    }

    /// The image directory, as the bytes of a filesystem path.
    pub fn image_dir(&self) -> (r: &[u8])
        ensures
            r@ == self@.image_dir,
    {
        self.image_dir.as_slice()
    }

    /// How many wallpaper slots one advance fills.
    pub fn num_monitors(&self) -> (r: usize)
        ensures
            r == self@.num_monitors,
    {
        self.num_monitors
    }

    /// Whether the image order is shuffled when the set is (re)loaded.
    pub fn shuffle(&self) -> (r: bool)
        ensures
            r == self@.shuffle,
    {
        self.shuffle
    }
}

impl Default for Config {
    /// Advance every half hour, shuffled, one monitor, images beside the
    /// working directory.
    fn default() -> (r: Config)
        ensures
            r@.switch_interval_sec == 1800,
            r@.shuffle == true,
            r@.image_dir == seq![46u8],
            r@.num_monitors == 1,
    {
        let dir: Vec<u8> = vec![46u8];
        proof {
            assert(dir@ =~= seq![46u8]);
        }
        Config { switch_interval_sec: 60 * 30, shuffle: true, image_dir: dir, num_monitors: 1 }
    }
}

impl PartialEq for Config {
    fn eq(&self, other: &Config) -> (r: bool) {
        let dirs_eq = self.image_dir == other.image_dir;
        proof {
            // Elementwise equality of the two path vectors is equality of
            // their views.
            if self.image_dir@ =~= other.image_dir@ {
            }
        }
        self.switch_interval_sec == other.switch_interval_sec && self.shuffle == other.shuffle
            && dirs_eq && self.num_monitors == other.num_monitors
    }
}

impl vstd::std_specs::cmp::PartialEqSpecImpl for Config {
    open spec fn obeys_eq_spec() -> bool {
        true
    }

    open spec fn eq_spec(&self, other: &Config) -> bool {
        self@ == other@
    }
}

/// What the daemon replies on each connection.  It acknowledges receipt
/// and superficial validity of the request, not the eventual effect of
/// applying it.
#[derive(Debug, Clone, Copy, PartialEq, Eq, Structural)]
pub enum ServerMessage {
    /// The request was received and decoded.
    Okay,
    /// The payload was not the encoding of any command.
    InvalidCommand,
    /// The configured image directory was not found.
    DirNotFound,
    /// The image set is empty, so no wallpaper could be set.
    NoImagesFound,
}

/// The single-byte encoding of an acknowledgement.
pub open spec fn spec_encode_server(m: ServerMessage) -> Seq<u8> {
    match m {
        ServerMessage::Okay => seq![0u8],
        ServerMessage::InvalidCommand => seq![1u8],
        ServerMessage::DirNotFound => seq![2u8],
        ServerMessage::NoImagesFound => seq![3u8],
    }
}

/// The acknowledgement a byte sequence encodes, if any.
pub open spec fn spec_decode_server(s: Seq<u8>) -> Option<ServerMessage> {
    if s.len() != 1 {
        None
    } else if s[0] == 0u8 {
        Some(ServerMessage::Okay)
    } else if s[0] == 1u8 {
        Some(ServerMessage::InvalidCommand)
    } else if s[0] == 2u8 {
        Some(ServerMessage::DirNotFound)
    } else if s[0] == 3u8 {
        Some(ServerMessage::NoImagesFound)
    } else {
        None
    }
}

/// Decoding inverts encoding on every acknowledgement.
pub proof fn lemma_server_round_trip(m: ServerMessage)
    ensures
        spec_decode_server(spec_encode_server(m)) == Some(m),
{
}

impl ServerMessage {
    /// Encodes this acknowledgement for the wire.  Every acknowledgement
    /// fits, so this never fails; the fallible signature mirrors the
    /// command side.
    pub fn serialize(&self) -> (r: Result<Vec<u8>, SowmError>)
        ensures
            r matches Ok(b) && b@ == spec_encode_server(*self),
    {
        let tag: u8 = match self {
            ServerMessage::Okay => 0,
            ServerMessage::InvalidCommand => 1,
            ServerMessage::DirNotFound => 2,
            ServerMessage::NoImagesFound => 3,
        };
        let b: Vec<u8> = vec![tag];
        proof {
            assert(b@ =~= spec_encode_server(*self));
        }
        Ok(b)
    }

    /// Decodes an acknowledgement, accepting exactly the encodings that
    /// [`spec_encode_server`] produces.
    pub fn deserialize(v: &[u8]) -> (r: Result<ServerMessage, SowmError>)
        ensures
            match r {
                Ok(m) => spec_decode_server(v@) == Some(m),
                Err(e) => spec_decode_server(v@) is None && e is DeserializationFailed,
            },
    {
        if v.len() != 1 {
            return Err(SowmError::DeserializationFailed);
        }
        match v[0] {
            0 => Ok(ServerMessage::Okay),
            1 => Ok(ServerMessage::InvalidCommand),
            2 => Ok(ServerMessage::DirNotFound),
            3 => Ok(ServerMessage::NoImagesFound),
            _ => Err(SowmError::DeserializationFailed),
        }
    }
}

/// What a client asks of the daemon.
#[derive(Debug, Clone)]
pub enum ClientMessage {
    /// Resume automatic cycling.
    Start,
    /// Pause automatic cycling.
    Stop,
    /// Advance to the next images at once, even while stopped.
    Next,
    /// Replace the image set and monitor count with a fresh snapshot.
    Update(Config),
}

/// The mathematical content of a [`ClientMessage`].
pub enum ClientMessageView {
    Start,
    Stop,
    Next,
    Update(ConfigView),
}

impl ClientMessageView {
    /// A command that the wire format can carry.
    pub open spec fn wf(self) -> bool {
        match self {
            ClientMessageView::Update(c) => c.wf(),
            _ => true,
        }
    }
}

impl View for ClientMessage {
    type V = ClientMessageView;

    open spec fn view(&self) -> ClientMessageView {
        match self {
            ClientMessage::Start => ClientMessageView::Start,
            ClientMessage::Stop => ClientMessageView::Stop,
            ClientMessage::Next => ClientMessageView::Next,
            ClientMessage::Update(c) => ClientMessageView::Update(c@),
        }
    }
}

impl PartialEq for ClientMessage {
    fn eq(&self, other: &ClientMessage) -> (r: bool) {
        match (self, other) {
            (ClientMessage::Start, ClientMessage::Start) => true,
            (ClientMessage::Stop, ClientMessage::Stop) => true,
            (ClientMessage::Next, ClientMessage::Next) => true,
            (ClientMessage::Update(a), ClientMessage::Update(b)) => a == b,
            _ => false,
        }
    }
}

impl vstd::std_specs::cmp::PartialEqSpecImpl for ClientMessage {
    open spec fn obeys_eq_spec() -> bool {
        true
    }

    open spec fn eq_spec(&self, other: &ClientMessage) -> bool {
        self@ == other@
    }
}

/// The encoding of the snapshot an `Update` command carries: the interval
/// (8 bytes, little-endian), the shuffle flag (1 byte), the monitor count
/// (2 bytes, little-endian), then the image directory path, length-prefixed
/// (2 bytes, little-endian).
pub open spec fn spec_encode_config(c: ConfigView) -> Seq<u8> {
    spec_u64_to_le_bytes(c.switch_interval_sec) + seq![if c.shuffle {
        1u8
    } else {
        0u8
    }] + spec_u16_to_le_bytes(c.num_monitors as u16) + spec_u16_to_le_bytes(
        c.image_dir.len() as u16,
    ) + c.image_dir
}

/// The encoding of a command: a tag byte, then for `Update` the snapshot.
pub open spec fn spec_encode_client(m: ClientMessageView) -> Seq<u8> {
    match m {
        ClientMessageView::Start => seq![0u8],
        ClientMessageView::Stop => seq![1u8],
        ClientMessageView::Next => seq![2u8],
        ClientMessageView::Update(c) => seq![3u8] + spec_encode_config(c),
    }
}

/// The `Update` command a byte sequence starting with tag 3 encodes, if
/// any.  Offsets are absolute: interval at 1..9, shuffle flag at 9,
/// monitor count at 10..12, path length at 12..14, path from 14.
pub open spec fn spec_decode_update(s: Seq<u8>) -> Option<ClientMessageView> {
    if s.len() >= 14 && (s[9] == 0u8 || s[9] == 1u8) && s.len() == 14 + spec_u16_from_le_bytes(
        s.subrange(12, 14),
    ) {
        Some(
            ClientMessageView::Update(
                ConfigView {
                    switch_interval_sec: spec_u64_from_le_bytes(s.subrange(1, 9)),
                    shuffle: s[9] == 1u8,
                    image_dir: s.subrange(14, s.len() as int),
                    num_monitors: spec_u16_from_le_bytes(s.subrange(10, 12)) as usize,
                },
            ),
        )
    } else {
        None
    }
}

/// The command a byte sequence encodes, if any.
pub open spec fn spec_decode_client(s: Seq<u8>) -> Option<ClientMessageView> {
    if s.len() == 0 {
        None
    } else if s[0] == 0u8 {
        if s.len() == 1 {
            Some(ClientMessageView::Start)
        } else {
            None
        }
    } else if s[0] == 1u8 {
        if s.len() == 1 {
            Some(ClientMessageView::Stop)
        } else {
            None
        }
    } else if s[0] == 2u8 {
        if s.len() == 1 {
            Some(ClientMessageView::Next)
        } else {
            None
        }
    } else if s[0] == 3u8 {
        spec_decode_update(s)
    } else {
        None
    }
}

/// Decoding inverts encoding on every command the wire format can carry.
pub proof fn lemma_client_round_trip(m: ClientMessageView)
    requires
        m.wf(),
    ensures
        spec_decode_client(spec_encode_client(m)) == Some(m),
{
    match m {
        ClientMessageView::Start => {},
        ClientMessageView::Stop => {},
        ClientMessageView::Next => {},
        ClientMessageView::Update(c) => {
            lemma_auto_spec_u64_to_from_le_bytes();
            lemma_auto_spec_u16_to_from_le_bytes();
            let s = spec_encode_client(m);
            assert(s.len() == 14 + c.image_dir.len());
            assert(s[0] == 3u8);
            assert(s.subrange(1, 9) =~= spec_u64_to_le_bytes(c.switch_interval_sec));
            assert(s[9] == (if c.shuffle {
                1u8
            } else {
                0u8
            }));
            assert(s.subrange(10, 12) =~= spec_u16_to_le_bytes(c.num_monitors as u16));
            assert(s.subrange(12, 14) =~= spec_u16_to_le_bytes(c.image_dir.len() as u16));
            assert(s.subrange(14, s.len() as int) =~= c.image_dir);
        },
    }
}

impl ClientMessage {
    /// Encodes this command for the wire.  Fails only when the snapshot an
    /// `Update` carries does not fit the wire format.
    pub fn serialize(&self) -> (r: Result<Vec<u8>, SowmError>)
        ensures
            self@.wf() ==> (r matches Ok(b) && b@ == spec_encode_client(self@)),
            !self@.wf() ==> r == Err::<Vec<u8>, SowmError>(SowmError::SerializationFailed),
    {
        match self {
            ClientMessage::Start => {
                let b: Vec<u8> = vec![0u8];
                proof {
                    assert(b@ =~= spec_encode_client(self@));
                }
                Ok(b)
            },
            ClientMessage::Stop => {
                let b: Vec<u8> = vec![1u8];
                proof {
                    assert(b@ =~= spec_encode_client(self@));
                }
                Ok(b)
            },
            ClientMessage::Next => {
                let b: Vec<u8> = vec![2u8];
                proof {
                    assert(b@ =~= spec_encode_client(self@));
                }
                Ok(b)
            },
            ClientMessage::Update(c) => {
                if c.num_monitors > 0xFFFF || c.image_dir.len() > 0xFFFF {
                    return Err(SowmError::SerializationFailed);
                }
                let mut out: Vec<u8> = vec![3u8];
                let mut ib = u64_to_le_bytes(c.switch_interval_sec);
                out.append(&mut ib);
                out.push(if c.shuffle {
                    1
                } else {
                    0
                });
                let mut mb = u16_to_le_bytes(c.num_monitors as u16);
                out.append(&mut mb);
                let mut lb = u16_to_le_bytes(c.image_dir.len() as u16);
                out.append(&mut lb);
                let ghost prefix = out@;
                let mut i: usize = 0;
                while i < c.image_dir.len()
                    invariant
                        i <= c.image_dir@.len(),
                        out@ =~= prefix + c.image_dir@.take(i as int),
                    decreases c.image_dir@.len() - i,
                {
                    out.push(c.image_dir[i]);
                    i = i + 1;
                }
                proof {
                    assert(c.image_dir@.take(c.image_dir@.len() as int) =~= c.image_dir@);
                    assert(out@ =~= spec_encode_client(self@));
                }
                Ok(out)
            },
        }
    }

    /// Decodes a command, accepting exactly the encodings that
    /// [`spec_encode_client`] produces.
    pub fn deserialize(v: &[u8]) -> (r: Result<ClientMessage, SowmError>)
        ensures
            match r {
                Ok(m) => spec_decode_client(v@) == Some(m@),
                Err(e) => spec_decode_client(v@) is None && e is DeserializationFailed,
            },
    {
        if v.len() == 0 {
            return Err(SowmError::DeserializationFailed);
        }
        let tag = v[0];
        if tag == 0 {
            if v.len() == 1 {
                Ok(ClientMessage::Start)
            } else {
                Err(SowmError::DeserializationFailed)
            }
        } else if tag == 1 {
            if v.len() == 1 {
                Ok(ClientMessage::Stop)
            } else {
                Err(SowmError::DeserializationFailed)
            }
        } else if tag == 2 {
            if v.len() == 1 {
                Ok(ClientMessage::Next)
            } else {
                Err(SowmError::DeserializationFailed)
            }
        } else if tag == 3 {
            if v.len() < 14 {
                return Err(SowmError::DeserializationFailed);
            }
            let sh = v[9];
            if sh > 1 {
                return Err(SowmError::DeserializationFailed);
            }
            let interval = u64_from_le_bytes(slice_subrange(v, 1, 9));
            let mon = u16_from_le_bytes(slice_subrange(v, 10, 12));
            let dl = u16_from_le_bytes(slice_subrange(v, 12, 14));
            if v.len() != 14 + dl as usize {
                return Err(SowmError::DeserializationFailed);
            }
            let dir = slice_to_vec(slice_subrange(v, 14, v.len()));
            let c = Config {
                switch_interval_sec: interval,
                shuffle: sh == 1,
                image_dir: dir,
                num_monitors: mon as usize,
            };
            let m = ClientMessage::Update(c);
            proof {
                assert(spec_decode_client(v@) == Some(m@));
            }
            Ok(m)
        } else {
            Err(SowmError::DeserializationFailed)
        }
    }
}

} // verus!
