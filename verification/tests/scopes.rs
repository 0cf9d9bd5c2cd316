use twitch_bindings::scope::Scope;

#[test]
fn scopes_have_their_texts() {
    assert_eq!(Scope::ChannelReadPolls.as_str(), "channel:read:polls");
    assert_eq!(Scope::ChannelReadRedemptions.as_str(), "channel:read:redemptions");
    assert_eq!(Scope::ChannelReadSubscriptions.as_str(), "channel:read:subscriptions");
    assert_eq!(Scope::UserReadEmail.as_str(), "user:read:email");
}

#[test]
fn scopes_are_named_as_twitch_oauth2_names_them() {
    assert_eq!(
        Scope::ChannelReadPolls.as_str(),
        twitch_oauth2::Scope::ChannelReadPolls.as_str()
    );
    assert_eq!(
        Scope::ChannelReadRedemptions.as_str(),
        twitch_oauth2::Scope::ChannelReadRedemptions.as_str()
    );
    assert_eq!(
        Scope::ChannelReadSubscriptions.as_str(),
        twitch_oauth2::Scope::ChannelReadSubscriptions.as_str()
    );
    assert_eq!(Scope::UserReadEmail.as_str(), twitch_oauth2::Scope::UserReadEmail.as_str());
}

#[test]
fn texts_are_read_back_by_twitch_oauth2() {
    let all = [
        (Scope::ChannelReadPolls, twitch_oauth2::Scope::ChannelReadPolls),
        (Scope::ChannelReadRedemptions, twitch_oauth2::Scope::ChannelReadRedemptions),
        (Scope::ChannelReadSubscriptions, twitch_oauth2::Scope::ChannelReadSubscriptions),
        (Scope::UserReadEmail, twitch_oauth2::Scope::UserReadEmail),
    ];
    for (ours, theirs) in all {
        assert_eq!(twitch_oauth2::Scope::from(ours.as_str().to_string()), theirs);
    }
}
