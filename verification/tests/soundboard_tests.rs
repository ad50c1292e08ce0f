use soundboard::binding_registry::BindingRegistry;
use soundboard::clip::clip_stem;
use soundboard::commands::{
    command_catalog, plan_join, route_command, Command, EmbedColour, JoinPlan,
};
use soundboard::dispatcher::{check_eligibility, select_playback, MessageFacts};
use soundboard::sound_cache::{ScannedFile, SoundCache};
use soundboard::playback_volume_permille;

fn scanned(name: &str, payload: Option<u64>) -> ScannedFile {
    ScannedFile { file_name: name.as_bytes().to_vec(), payload }
}

#[test]
fn stem_strips_final_extension() {
    assert_eq!(clip_stem(&b"applause.mp3".to_vec()), b"applause".to_vec());
    assert_eq!(clip_stem(&b"archive.tar.gz".to_vec()), b"archive.tar".to_vec());
    assert_eq!(clip_stem(&b"trailing.".to_vec()), b"trailing".to_vec());
}

#[test]
fn stem_keeps_names_without_extension() {
    assert_eq!(clip_stem(&b"noext".to_vec()), b"noext".to_vec());
    assert_eq!(clip_stem(&b".gitignore".to_vec()), b".gitignore".to_vec());
    assert_eq!(clip_stem(&b"".to_vec()), b"".to_vec());
    assert_eq!(clip_stem(&b".".to_vec()), b".".to_vec());
}

#[test]
fn cache_counts_exactly_the_decodable_files() {
    let files = vec![
        scanned("one.mp3", Some(0)),
        scanned("bad.wav", None),
        scanned("two.opus", Some(1)),
        scanned("worse.mp3", None),
        scanned("three.wav", Some(2)),
    ];
    let cache = SoundCache::load(&files);
    assert_eq!(cache.count(), 3);
    assert_eq!(cache.lookup(&b"one".to_vec()), Some(0));
    assert_eq!(cache.lookup(&b"two".to_vec()), Some(1));
    assert_eq!(cache.lookup(&b"three".to_vec()), Some(2));
    assert_eq!(cache.lookup(&b"bad".to_vec()), None);
    assert_eq!(cache.lookup(&b"worse".to_vec()), None);
}

#[test]
fn cache_last_write_wins_on_stem_collision() {
    let files = vec![scanned("clip.mp3", Some(4)), scanned("clip.wav", Some(9))];
    let cache = SoundCache::load(&files);
    assert_eq!(cache.count(), 1);
    assert_eq!(cache.lookup(&b"clip".to_vec()), Some(9));
}

#[test]
fn corrupt_file_is_skipped_and_scan_goes_on() {
    // One decodable file and one that failed to decode: the startup log
    // would report one file found.
    let files = vec![scanned("applause.mp3", Some(0)), scanned("broken.wav", None)];
    let cache = SoundCache::load(&files);
    assert_eq!(cache.lookup(&b"applause".to_vec()), Some(0));
    assert_eq!(cache.lookup(&b"broken".to_vec()), None);
    assert_eq!(cache.count(), 1);
}

#[test]
fn binding_is_last_writer_wins() {
    let mut registry = BindingRegistry::new();
    assert_eq!(registry.lookup(10), None);
    registry.bind(10, 100);
    assert_eq!(registry.lookup(10), Some(100));
    registry.bind(10, 200);
    assert_eq!(registry.lookup(10), Some(200));
    assert_eq!(registry.lookup(11), None);
}

fn facts(guild: u64, channel: u64, bot_channel: u64) -> MessageFacts {
    MessageFacts {
        author_is_bot: false,
        guild_id: Some(guild),
        has_connection: true,
        bot_channel: Some(bot_channel),
        channel_id: channel,
    }
}

#[test]
fn eligibility_holds_on_either_condition_alone() {
    let mut registry = BindingRegistry::new();
    registry.bind(1, 500);
    // Bound channel matches, co-located does not.
    assert!(check_eligibility(&registry, &facts(1, 500, 600)));
    // Co-located channel matches, bound does not.
    assert!(check_eligibility(&registry, &facts(1, 600, 600)));
    // Both match.
    assert!(check_eligibility(&registry, &facts(1, 500, 500)));
    // Neither matches.
    assert!(!check_eligibility(&registry, &facts(1, 700, 600)));
}

#[test]
fn prechecks_gate_eligibility() {
    let mut registry = BindingRegistry::new();
    registry.bind(1, 500);
    let mut bot_author = facts(1, 500, 500);
    bot_author.author_is_bot = true;
    assert!(!check_eligibility(&registry, &bot_author));
    let mut direct_message = facts(1, 500, 500);
    direct_message.guild_id = None;
    assert!(!check_eligibility(&registry, &direct_message));
    let mut no_connection = facts(1, 500, 500);
    no_connection.has_connection = false;
    assert!(!check_eligibility(&registry, &no_connection));
    let mut no_bot_channel = facts(1, 500, 500);
    no_bot_channel.bot_channel = None;
    assert!(!check_eligibility(&registry, &no_bot_channel));
}

#[test]
fn unknown_text_never_plays() {
    let files = vec![scanned("applause.mp3", Some(0))];
    let cache = SoundCache::load(&files);
    assert_eq!(select_playback(&cache, true, &b"applause please".to_vec()), None);
    assert_eq!(select_playback(&cache, true, &b"Applause".to_vec()), None);
}

#[test]
fn non_guild_channel_never_plays() {
    let files = vec![scanned("applause.mp3", Some(0))];
    let cache = SoundCache::load(&files);
    assert_eq!(select_playback(&cache, false, &b"applause".to_vec()), None);
}

#[test]
fn join_refused_outside_a_guild() {
    match plan_join(false, Some(5), 7) {
        JoinPlan::Refuse { embed } => {
            assert_eq!(embed.description, "このコマンドは使えません。");
            assert_eq!(embed.colour, EmbedColour::Error);
        },
        JoinPlan::Connect { .. } => panic!("join must be refused without a guild"),
    }
}

#[test]
fn join_refused_without_a_voice_channel() {
    match plan_join(true, None, 7) {
        JoinPlan::Refuse { embed } => {
            assert_eq!(embed.description, "接続先のボイスチャンネルが見つかりません。");
            assert_eq!(embed.colour, EmbedColour::Error);
        },
        JoinPlan::Connect { .. } => panic!("join must be refused without a voice channel"),
    }
}

#[test]
fn join_binds_the_invoking_text_channel() {
    match plan_join(true, Some(42), 7) {
        JoinPlan::Connect { voice_channel, bind_channel, embed } => {
            assert_eq!(voice_channel, 42);
            assert_eq!(bind_channel, 7);
            assert_eq!(embed.description, "ボイスチャンネルに接続しました。");
            assert_eq!(embed.colour, EmbedColour::Success);
        },
        JoinPlan::Refuse { .. } => panic!("join must proceed"),
    }
}

#[test]
fn matching_message_in_bound_channel_plays_at_low_volume() {
    // A user in voice channel 42 issued the join command from text channel
    // 7; a message whose text is exactly "applause" then arrives in 7.
    let mut registry = BindingRegistry::new();
    let plan = plan_join(true, Some(42), 7);
    let (voice_channel, bind_channel) = match plan {
        JoinPlan::Connect { voice_channel, bind_channel, .. } => (voice_channel, bind_channel),
        JoinPlan::Refuse { .. } => panic!("join must proceed"),
    };
    registry.bind(1, bind_channel);

    let files = vec![scanned("applause.mp3", Some(0)), scanned("broken.wav", None)];
    let cache = SoundCache::load(&files);

    let message = facts(1, 7, voice_channel);
    assert!(check_eligibility(&registry, &message));
    assert_eq!(select_playback(&cache, true, &b"applause".to_vec()), Some(0));
    assert_eq!(playback_volume_permille(), 50);
}

#[test]
fn routing_knows_exactly_the_two_commands() {
    assert_eq!(route_command(&"join".to_string()), Some(Command::Join));
    assert_eq!(route_command(&"leave".to_string()), Some(Command::Leave));
    assert_eq!(route_command(&"ping".to_string()), None);
    assert_eq!(route_command(&"Join".to_string()), None);
    assert_eq!(route_command(&"".to_string()), None);
}

#[test]
fn catalog_registers_join_and_leave() {
    let catalog = command_catalog();
    assert_eq!(catalog.len(), 2);
    assert_eq!(catalog[0].name, "join");
    assert_eq!(catalog[0].description, "ボイスチャンネルに接続します。");
    assert_eq!(catalog[1].name, "leave");
    assert_eq!(catalog[1].description, "ボイスチャンネルから切断します。");
}
