use codex_logic::bem::{message_phase, ChannelParser, ChannelPrefixes, MessagePhase};

#[test]
fn default_prefixes_pick_the_phase() {
    let p = ChannelPrefixes::new();
    assert_eq!(message_phase("[ANALYSIS] thinking", &p), Some(MessagePhase::Commentary));
    assert_eq!(message_phase("[COMMENTARY] note", &p), Some(MessagePhase::Commentary));
    assert_eq!(message_phase("[FINAL] done", &p), Some(MessagePhase::FinalAnswer));
    assert_eq!(message_phase("[FIN", &p), None);
    assert_eq!(message_phase("plain", &p), None);
}

#[test]
fn configured_prefixes_replace_the_default() {
    let mut p = ChannelPrefixes::new();
    p.insert("final".to_string(), vec![String::new(), ">>".to_string()]);
    assert_eq!(message_phase("[FINAL] x", &p), None);
    assert_eq!(message_phase(">> x", &p), Some(MessagePhase::FinalAnswer));
    p.insert("final".to_string(), vec![]);
    assert_eq!(message_phase(">> x", &p), None);
}

#[test]
fn analysis_wins_over_later_channels() {
    let mut p = ChannelPrefixes::new();
    p.insert("analysis".to_string(), vec!["#".to_string()]);
    p.insert("final".to_string(), vec!["#".to_string()]);
    assert_eq!(message_phase("# both", &p), Some(MessagePhase::Commentary));
}

#[test]
fn parser_buffers_until_the_header_is_complete() {
    let mut parser = ChannelParser::new(ChannelPrefixes::new());
    assert_eq!(parser.push("[FI"), None);
    assert_eq!(parser.phase(), None);
    assert_eq!(parser.push("NAL] hel"), Some("[FINAL] hel".to_string()));
    assert_eq!(parser.phase(), Some(MessagePhase::FinalAnswer));
    assert_eq!(parser.push("lo"), Some("lo".to_string()));
    assert_eq!(parser.finish(), "");
}

#[test]
fn parser_releases_the_buffer_on_finish() {
    let mut parser = ChannelParser::new(ChannelPrefixes::new());
    assert_eq!(parser.push("no header "), None);
    assert_eq!(parser.push("at all"), None);
    assert_eq!(parser.finish(), "no header at all");
    assert_eq!(parser.phase(), None);
}
