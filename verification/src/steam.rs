//! Facts about the platform client that the bridge depends on: how this
//! process was launched, where the overlay's helper page reaches it, and
//! where the client keeps its shortcuts.

use vstd::prelude::*;
use crate::text::{chars_of, decimal, push_decimal, push_text};

verus! {

/// One page of the client's embedded browser, as its debug listing describes it.
#[derive(Clone, Debug)]
pub struct CefTab {
    pub description: String,
    pub devtools_frontend_url: String,
    pub id: String,
    pub title: String,
    pub tab_type: String,
    pub url: String,
    pub web_socket_debugger_url: String,
}

/// The port of the local WebSocket server, settable once.
#[derive(Clone, Copy, Debug)]
pub struct WsServerPort {
    pub port: Option<u16>,
}

/// Whether this process was launched by the platform client, settable once.
#[derive(Clone, Copy, Debug)]
pub struct SteamLaunch {
    pub launched: Option<bool>,
}

/// Records the port unless one was recorded before; tells whether it did.
pub fn set_ws_server_port(cell: &mut WsServerPort, port: u16) -> (r: bool)
    ensures
        r == old(cell).port.is_none(),
        final(cell).port == if r {
            Some(port)
        } else {
            old(cell).port
        },
{
    if cell.port.is_none() {
        cell.port = Some(port);
        true
    } else {
        false
    }
}

/// The recorded port, if any.
pub fn get_ws_server_port(cell: &WsServerPort) -> (r: Option<u16>)
    ensures
        r == cell.port,
{
    cell.port
}

/// The host and port under which the local server is reached; port 0 while
/// none is recorded.
pub open spec fn spec_sisr_host(port: Option<u16>) -> Seq<char> {
    "localhost:"@ + decimal(
        match port {
            Some(p) => p as nat,
            None => 0,
        },
    )
}

/// The host and port under which the local server is reached.
pub fn sisr_host(cell: &WsServerPort) -> (r: String)
    ensures
        r@ == spec_sisr_host(cell.port),
{
    let mut r: String = "localhost:".to_owned();
    match cell.port {
        Some(port) => push_decimal(&mut r, port as u64),
        None => push_decimal(&mut r, 0),
    }
    r
}

/// Records how the process was launched (`steam_game_id_set`: whether the
/// platform's game-id variable is set), unless that was recorded before.
pub fn init(cell: &mut SteamLaunch, steam_game_id_set: bool)
    ensures
        final(cell).launched == match old(cell).launched {
            Some(b) => Some(b),
            None => Some(steam_game_id_set),
        },
{
    if cell.launched.is_none() {
        cell.launched = Some(steam_game_id_set);
    }
}

/// Whether the process was launched by the platform client; `false` while
/// nothing is recorded.
pub fn launched_via_steam(cell: &SteamLaunch) -> (r: bool)
    ensures
        r == (cell.launched == Some(true)),
{
    match cell.launched {
        Some(b) => b,
        None => false,
    }
}

/// `dir` followed by `/` unless it ends in one or is empty.
pub open spec fn with_separator(dir: Seq<char>) -> Seq<char> {
    if dir.len() == 0 || dir.last() == '/' {
        dir
    } else {
        dir.push('/')
    }
}

/// Where the client keeps the shortcuts of user `user`: below the client's
/// directory, `userdata/<user>/config/shortcuts.vdf`.
pub open spec fn spec_shortcuts_path(steam_path: Seq<char>, user: u32) -> Seq<char> {
    with_separator(steam_path) + "userdata/"@ + decimal(user as nat) + "/config/shortcuts.vdf"@
}

/// The path of the shortcuts file of the given user. Whether a file stands
/// there is for the caller to find out.
pub fn get_shortcuts_path(steam_path: &str, steam_active_user_id: u32) -> (r: String)
    ensures
        r@ == spec_shortcuts_path(steam_path@, steam_active_user_id),
{
    let cs: Vec<char> = chars_of(steam_path);
    let mut r: String = steam_path.to_owned();
    if cs.len() > 0 && cs[cs.len() - 1] != '/' {
        push_text(&mut r, "/");
        proof {
            reveal_strlit("/");
            assert("/"@ =~= seq!['/']);
            assert(r@ =~= with_separator(steam_path@));
        }
    }
    push_text(&mut r, "userdata/");
    push_decimal(&mut r, steam_active_user_id as u64);
    push_text(&mut r, "/config/shortcuts.vdf");
    r
}

/// The game id under which the overlay knows a shortcut with application id
/// `marker_app_id`: the id in the upper half, the shortcut marker below it.
pub open spec fn spec_marker_game_id(marker_app_id: u32) -> u64 {
    (marker_app_id as u64 * 0x1_0000_0000 + 0x200_0000) as u64
}

/// The game id under which the overlay knows the shortcut `marker_app_id`.
pub fn marker_game_id(marker_app_id: u32) -> (r: u64)
    ensures
        r == spec_marker_game_id(marker_app_id),
{
    marker_app_id as u64 * 0x1_0000_0000 + 0x200_0000
}

} // verus!
