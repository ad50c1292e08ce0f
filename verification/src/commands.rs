//! The command surface: routing of the two slash-command names, the
//! localized response embeds, and the join command's decision — everything
//! the command handlers settle before the gateway or the voice client is
//! asked to do anything.
use vstd::prelude::*;

verus! {

/// The two colour states of the response embeds: red for a business-rule
/// failure, the green accent for success.
#[derive(Clone, Copy, Debug, PartialEq, Eq, Structural)]
pub enum EmbedColour {
    Error,
    Success,
}

/// A localized response embed: a short description and a colour state.
pub struct Embed {
    pub description: String,
    pub colour: EmbedColour,
}

/// The embed sent when the command's guild cannot be resolved.
pub open spec fn is_guild_unavailable_embed(embed: Embed) -> bool {
    embed.description@ == "このコマンドは使えません。"@ && embed.colour == EmbedColour::Error
}

/// The embed sent when the invoking user is in no voice channel.
pub open spec fn is_no_voice_channel_embed(embed: Embed) -> bool {
    embed.description@ == "接続先のボイスチャンネルが見つかりません。"@ && embed.colour
        == EmbedColour::Error
}

/// The embed sent once the voice channel was joined.
pub open spec fn is_connected_embed(embed: Embed) -> bool {
    embed.description@ == "ボイスチャンネルに接続しました。"@ && embed.colour
        == EmbedColour::Success
}

pub fn guild_unavailable_embed() -> (r: Embed)
    ensures
        is_guild_unavailable_embed(r),
{
    Embed { description: "このコマンドは使えません。".to_owned(), colour: EmbedColour::Error }
}

pub fn no_voice_channel_embed() -> (r: Embed)
    ensures
        is_no_voice_channel_embed(r),
{
    Embed {
        description: "接続先のボイスチャンネルが見つかりません。".to_owned(),
        colour: EmbedColour::Error,
    }
}

pub fn connected_embed() -> (r: Embed)
    ensures
        is_connected_embed(r),
{
    Embed {
        description: "ボイスチャンネルに接続しました。".to_owned(),
        colour: EmbedColour::Success,
    }
}

/// The commands the router owns.
#[derive(Clone, Copy, Debug, PartialEq, Eq, Structural)]
pub enum Command {
    Join,
    Leave,
}

pub open spec fn route_spec(name: Seq<char>) -> Option<Command> {
    if name == "join"@ {
        Some(Command::Join)
    } else if name == "leave"@ {
        Some(Command::Leave)
    } else {
        None
    }
}

/// Map a slash-command name to the command it stands for; any other name
/// is not ours and is ignored.
pub fn route_command(name: &String) -> (r: Option<Command>)
    ensures
        r == route_spec(name@),
{
    proof {
        reveal_strlit("join");
        reveal_strlit("leave");
    }
    let join: String = "join".to_owned();
    if join == *name {
        return Some(Command::Join);
    }
    let leave: String = "leave".to_owned();
    if leave == *name {
        return Some(Command::Leave);
    }
    None
}

/// What the join command decides before any side effect is attempted.
pub enum JoinPlan {
    /// Respond with a localized error embed and change nothing.
    Refuse { embed: Embed },
    /// Join `voice_channel` deafened; once the connection is established,
    /// bind the guild to `bind_channel` — the text channel the command was
    /// invoked from, not the voice channel — and respond with the success
    /// embed.
    Connect { voice_channel: u64, bind_channel: u64, embed: Embed },
}

/// Decide the join command: with no resolvable guild, refuse; with the
/// invoking user in no voice channel, refuse; otherwise join the user's
/// voice channel and bind the invoking text channel.
pub fn plan_join(guild_resolved: bool, user_voice_channel: Option<u64>, invoked_channel: u64) -> (r:
    JoinPlan)
    ensures
        !guild_resolved ==> (r matches JoinPlan::Refuse { embed } && is_guild_unavailable_embed(
            embed,
        )),
        guild_resolved && user_voice_channel is None ==> (r matches JoinPlan::Refuse { embed }
            && is_no_voice_channel_embed(embed)),
        guild_resolved ==> (user_voice_channel matches Some(voice) ==> (r
            matches JoinPlan::Connect { voice_channel, bind_channel, embed } && voice_channel
            == voice && bind_channel == invoked_channel && is_connected_embed(embed))),
{
    if !guild_resolved {
        return JoinPlan::Refuse { embed: guild_unavailable_embed() };
    }
    match user_voice_channel {
        None => JoinPlan::Refuse { embed: no_voice_channel_embed() },
        Some(voice_channel) => JoinPlan::Connect {
            voice_channel,
            bind_channel: invoked_channel,
            embed: connected_embed(),
        },
    }
}

/// One slash command as registered with the platform: its name and its
/// localized description.
pub struct CommandSpec {
    pub name: String,
    pub description: String,
}

/// The bot's command surface — join and leave — registered with every
/// guild when the gateway reports readiness.
pub fn command_catalog() -> (r: Vec<CommandSpec>)
    ensures
        r@.len() == 2,
        r@[0].name@ == "join"@,
        r@[0].description@ == "ボイスチャンネルに接続します。"@,
        r@[1].name@ == "leave"@,
        r@[1].description@ == "ボイスチャンネルから切断します。"@,
{
    let mut catalog: Vec<CommandSpec> = Vec::new();
    catalog.push(
        CommandSpec {
            name: "join".to_owned(),
            description: "ボイスチャンネルに接続します。".to_owned(),
        },
    );
    catalog.push(
        CommandSpec {
            name: "leave".to_owned(),
            description: "ボイスチャンネルから切断します。".to_owned(),
        },
    );
    catalog
}

} // verus!
