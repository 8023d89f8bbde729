//! The settings that the server reads from its JSON files, and their defaults.

use vstd::prelude::*;

verus! {

/// Who may use commands in the game.
#[derive(Clone, Copy, Debug, PartialEq, Eq, Structural)]
pub enum AllowCommands {
    /// Every player.
    True,
    /// Nobody.
    False,
    /// Admins only.
    AdminsOnly,
}

/// Where the game is announced.
#[derive(Clone, Copy, Debug, PartialEq, Eq, Structural)]
pub struct Visibility {
    /// On the official Factorio matching server.
    pub public: bool,
    /// On the local network.
    pub lan: bool,
}

impl Default for Visibility {
    /// Announced on both.
    fn default() -> (visibility: Visibility)
        ensures
            visibility == (Visibility { public: true, lan: true }),
    {
        Visibility { public: true, lan: true }
    }
}

/// How expensive recipes are.
#[derive(Clone, Copy, Debug, PartialEq, Eq, Structural)]
pub enum RecipeDifficulty {
    Normal,
    Expensive,
}

/// How expensive technologies are.
#[derive(Clone, Copy, Debug, PartialEq, Eq, Structural)]
pub enum TechnologyDifficulty {
    Normal,
    Expensive,
}

/// When the research queue is available.
#[derive(Clone, Copy, Debug, PartialEq, Eq, Structural)]
pub enum ResearchQueueSetting {
    /// Once the game is won.
    AfterVictory,
    /// From the start of the game.
    Always,
    /// Never.
    Never,
}

/// The server settings, as `server-settings.json` holds them. A change takes
/// effect when the server is started again.
#[derive(Clone, Debug, PartialEq, Eq)]
pub struct ServerSettings {
    /// The name of the game in the game listing.
    pub name: String,
    /// The description of the game in the game listing.
    pub description: String,
    /// The tags by which the game listing is filtered.
    pub tags: Vec<String>,
    /// How many players may join; admins can join a full server. 0 is no limit.
    pub max_players: u32,
    /// Where the game is announced.
    pub visibility: Visibility,
    /// The factorio.com login of the host; needed for a public game.
    pub username: String,
    /// Whether only players with a valid factorio.com account may join.
    pub require_user_verification: bool,
    /// 0 is no limit.
    pub max_upload_in_kilobytes_per_second: u32,
    /// 0 is no limit.
    pub max_upload_slots: u32,
    /// One tick is 16 ms at normal speed. 0 is no minimum.
    pub minimum_latency_in_ticks: u32,
    /// How often per second game updates are sent at most, from 6 to 240.
    pub max_heartbeats_per_second: u32,
    /// Whether players who were on this map before may join a full server.
    pub ignore_player_limit_for_returning_players: bool,
    /// Who may use commands.
    pub allow_commands: AllowCommands,
    /// Minutes between two autosaves.
    pub autosave_interval: u32,
    /// How many autosaves are kept; the server writes them in turn.
    pub autosave_slots: u32,
    /// Minutes of idleness after which a player is kicked. 0 is never.
    pub afk_autokick_interval: u32,
    /// Whether the server pauses while no player is present.
    pub auto_pause: bool,
    /// Whether only admins may pause the game.
    pub only_admins_can_pause_the_game: bool,
    /// Whether autosaves are written on the server only.
    pub autosave_only_on_server: bool,
    /// Whether the server forks itself to write an autosave.
    pub non_blocking_saving: bool,
    /// Network messages are split into segments sent over several ticks;
    /// these four bound the segment size by the number of peers.
    pub minimum_segment_size: u32,
    pub minimum_segment_size_peer_count: u32,
    pub maximum_segment_size: u32,
    pub maximum_segment_size_peer_count: u32,
}

impl ServerSettings {
    /// Whether these are the settings of a server that nobody configured.
    pub open spec fn is_default(self) -> bool {
        &&& self.name@ == "factoriod"@
        &&& self.description@ == "factoriod"@
        &&& self.tags@.len() == 0
        &&& self.max_players == 0
        &&& self.visibility == (Visibility { public: true, lan: true })
        &&& self.username@.len() == 0
        &&& self.require_user_verification
        &&& self.max_upload_in_kilobytes_per_second == 0
        &&& self.max_upload_slots == 5
        &&& self.minimum_latency_in_ticks == 0
        &&& self.max_heartbeats_per_second == 60
        &&& !self.ignore_player_limit_for_returning_players
        &&& self.allow_commands == AllowCommands::AdminsOnly
        &&& self.autosave_interval == 10
        &&& self.autosave_slots == 5
        &&& self.afk_autokick_interval == 0
        &&& self.auto_pause
        &&& self.only_admins_can_pause_the_game
        &&& self.autosave_only_on_server
        &&& !self.non_blocking_saving
        &&& self.minimum_segment_size == 25
        &&& self.minimum_segment_size_peer_count == 20
        &&& self.maximum_segment_size == 100
        &&& self.maximum_segment_size_peer_count == 10
    }
}

impl Default for ServerSettings {
    fn default() -> (settings: ServerSettings)
        ensures
            settings.is_default(),
    {
        ServerSettings {
            name: "factoriod".to_owned(),
            description: "factoriod".to_owned(),
            tags: Vec::new(),
            max_players: 0,
            visibility: Visibility { public: true, lan: true },
            username: String::new(),
            require_user_verification: true,
            max_upload_in_kilobytes_per_second: 0,
            max_upload_slots: 5,
            minimum_latency_in_ticks: 0,
            max_heartbeats_per_second: 60,
            ignore_player_limit_for_returning_players: false,
            allow_commands: AllowCommands::AdminsOnly,
            autosave_interval: 10,
            autosave_slots: 5,
            afk_autokick_interval: 0,
            auto_pause: true,
            only_admins_can_pause_the_game: true,
            autosave_only_on_server: true,
            non_blocking_saving: false,
            minimum_segment_size: 25,
            minimum_segment_size_peer_count: 20,
            maximum_segment_size: 100,
            maximum_segment_size_peer_count: 10,
        }
    }
}

/// The server settings together with what must not be shown.
#[derive(Clone, Debug, PartialEq, Eq)]
pub struct ServerSettingsWithSecrets {
    pub server_settings: ServerSettings,
    /// The factorio.com password of the host; needed for a public game.
    pub password: String,
    /// An authentication token, which may stand in for the password.
    pub token: String,
    /// The password for joining the game; empty for none.
    pub game_password: String,
}

impl Default for ServerSettingsWithSecrets {
    /// The default settings, with every secret empty.
    fn default() -> (settings: ServerSettingsWithSecrets)
        ensures
            settings.server_settings.is_default(),
            settings.password@.len() == 0,
            settings.token@.len() == 0,
            settings.game_password@.len() == 0,
    {
        ServerSettingsWithSecrets {
            server_settings: ServerSettings::default(),
            password: String::new(),
            token: String::new(),
            game_password: String::new(),
        }
    }
}

} // verus!
