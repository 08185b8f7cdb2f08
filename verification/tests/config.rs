use lightyear_webrtc::config::{rtc_config_steps, RtcConfigStep};
use lightyear_webrtc::{IceConfig, IceServer};

fn describe(steps: &[RtcConfigStep]) -> Vec<String> {
    steps
        .iter()
        .map(|s| match s {
            RtcConfigStep::BeginServer => "begin".to_string(),
            RtcConfigStep::AddUrl(u) => format!("url {u}"),
            RtcConfigStep::SetUsername(u) => format!("username {u}"),
            RtcConfigStep::SetCredential(c) => format!("credential {c}"),
            RtcConfigStep::EndServer => "end".to_string(),
        })
        .collect()
}

#[test]
fn stun_and_turn_servers_in_order() {
    let config = IceConfig {
        ice_servers: vec![
            IceServer {
                urls: vec!["stun:stun.l.google.com:19302".into()],
                username: None,
                credential: None,
            },
            IceServer {
                urls: vec!["turn:turn.example.org:3478".into(), "turns:turn.example.org:5349".into()],
                username: Some("user".into()),
                credential: Some("secret".into()),
            },
        ],
    };
    let steps = rtc_config_steps(&config);
    assert_eq!(
        describe(&steps),
        vec![
            "begin",
            "url stun:stun.l.google.com:19302",
            "end",
            "begin",
            "url turn:turn.example.org:3478",
            "url turns:turn.example.org:5349",
            "username user",
            "credential secret",
            "end",
        ]
    );
}

#[test]
fn credential_without_username() {
    let config = IceConfig {
        ice_servers: vec![IceServer {
            urls: vec![],
            username: None,
            credential: Some("c".into()),
        }],
    };
    assert_eq!(describe(&rtc_config_steps(&config)), vec!["begin", "credential c", "end"]);
}

#[test]
fn empty_config_has_no_steps() {
    let config = IceConfig { ice_servers: vec![] };
    assert!(rtc_config_steps(&config).is_empty());
}

#[test]
fn duplicate_config_keeps_servers() {
    let config = IceConfig {
        ice_servers: vec![IceServer {
            urls: vec!["stun:a".into(), "stun:b".into()],
            username: Some("u".into()),
            credential: None,
        }],
    };
    let copy = config.duplicate();
    assert_eq!(copy.ice_servers.len(), 1);
    assert_eq!(copy.ice_servers[0].urls, vec!["stun:a".to_string(), "stun:b".to_string()]);
    assert_eq!(copy.ice_servers[0].username.as_deref(), Some("u"));
    assert_eq!(copy.ice_servers[0].credential, None);
}
