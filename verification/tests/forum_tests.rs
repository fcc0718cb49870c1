use wordle_bot::forum::{AuthInterceptor, Category};

#[test]
fn the_interceptor_hands_back_the_token() {
    let interceptor = AuthInterceptor::new("token-abc".to_string());
    assert_eq!(interceptor.token(), "token-abc");
}

#[test]
fn categories_carry_their_forum_identifiers() {
    assert_eq!(Category::Main.id(), 1);
    assert_eq!(Category::School.id(), 2);
    assert_eq!(Category::Canteen.id(), 3);
    assert_eq!(Category::Emotion.id(), 4);
    assert_eq!(Category::Study.id(), 5);
    assert_eq!(Category::Tech.id(), 6);
    assert_eq!(Category::DutyRoom.id(), 7);
    assert_eq!(Category::Game.id(), 8);
    assert_eq!(Category::Deep.id(), 9);
}
