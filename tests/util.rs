use twilight_model::channel::ChannelType;
use twilight_webhook::cache::Error;
use twilight_webhook::store::WebhookHandle;
use twilight_webhook::util::Execution;

fn usable() -> WebhookHandle {
    WebhookHandle { id: 3, channel_id: 20, guild_id: Some(1), token: Some("tok".to_string()) }
}

#[test]
fn execution_of_token_bearing_webhook() {
    let e = Execution::new(usable(), "name".to_string(), Some("https://a/b.png".to_string())).unwrap();
    assert_eq!(e.webhook_id, 3);
    assert_eq!(e.token, "tok");
    assert_eq!(e.thread_id, None);
    assert_eq!(e.username, "name");
    assert_eq!(e.avatar_url, Some("https://a/b.png".to_string()));
}

#[test]
fn execution_without_token_fails() {
    let w = WebhookHandle { id: 3, channel_id: 20, guild_id: None, token: None };
    assert!(matches!(Execution::new(w, "name".to_string(), None), Err(Error::NoToken)));
}

#[test]
fn thread_channels_route_to_thread() {
    for kind in [ChannelType::GuildNewsThread, ChannelType::GuildPublicThread, ChannelType::GuildPrivateThread] {
        let e = Execution::new(usable(), "n".to_string(), None).unwrap().in_channel(30, kind);
        assert_eq!(e.thread_id, Some(30));
        assert_eq!(e.webhook_id, 3);
    }
}

#[test]
fn other_channels_keep_parent() {
    for kind in [ChannelType::GuildText, ChannelType::GuildNews, ChannelType::GuildForum, ChannelType::Private] {
        let e = Execution::new(usable(), "n".to_string(), None).unwrap().in_channel(20, kind);
        assert_eq!(e.thread_id, None);
    }
}
