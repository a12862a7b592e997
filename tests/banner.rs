use site_banner::banner::{contact_icon_src, contact_popup_configs, contacts, BANNER_STYLE_NAME};
use site_banner::{Banner, BannerMessage, BannerProps, PopupTrigger, ThemeChannel};

fn props(style: Option<&'static str>) -> BannerProps {
    BannerProps { bg_color: "#fff".to_string(), illustration: "/images/a.svg".to_string(), illustration_style: style }
}

#[test]
fn create_scopes_class_and_subscribes() {
    let mut ch = ThemeChannel::new();
    let b = Banner::create(props(None), &mut ch).unwrap();
    assert!(b.class_name.starts_with("Banner-"));
    assert!(b.class_name.len() > "Banner-".len());
    assert_eq!(BANNER_STYLE_NAME, "Banner");
    assert_eq!(ch.publish(), vec![b.subscription]);
}

#[test]
fn assemble_error_leaves_channel_alone() {
    let mut ch = ThemeChannel::new();
    let r = Banner::assemble(props(None), Err("bad css".to_string()), &mut ch);
    assert_eq!(r.err(), Some("bad css".to_string()));
    assert!(ch.publish().is_empty());
}

#[test]
fn assemble_keeps_class_name() {
    let mut ch = ThemeChannel::new();
    let b = Banner::assemble(props(None), Ok("Banner-x".to_string()), &mut ch).unwrap();
    assert_eq!(b.class_name, "Banner-x");
    assert!(ch.is_subscribed(b.subscription));
}

#[test]
fn destroy_unsubscribes() {
    let mut ch = ThemeChannel::new();
    let b1 = Banner::assemble(props(None), Ok("a".to_string()), &mut ch).unwrap();
    let b2 = Banner::assemble(props(None), Ok("b".to_string()), &mut ch).unwrap();
    b1.destroy(&mut ch);
    assert_eq!(ch.publish(), vec![b2.subscription]);
}

#[test]
fn theme_change_rerenders_and_props_change_does_not() {
    let mut ch = ThemeChannel::new();
    let mut b = Banner::assemble(props(None), Ok("a".to_string()), &mut ch).unwrap();
    assert!(b.update(BannerMessage::ChangeTheme));
    assert!(!b.change(props(Some("x"))));
    assert_eq!(b.illustration_style(), "");
}

#[test]
fn styles_of_banner() {
    let mut ch = ThemeChannel::new();
    let b = Banner::assemble(props(Some("width: 10px;")), Ok("a".to_string()), &mut ch).unwrap();
    assert_eq!(b.background_style(), "background: #fff;");
    assert_eq!(b.illustration_style(), "width: 10px;");
}

#[test]
fn contact_list_and_icons() {
    let c = contacts();
    let names: Vec<&str> = c.iter().map(|x| x.name).collect();
    assert_eq!(names, vec!["github", "twitter", "mail"]);
    assert_eq!(c[0].url, "https://github.com/mistricky");
    assert_eq!(contact_icon_src("github"), "/images/github_icon.svg");
}

#[test]
fn popup_configs() {
    let p = contact_popup_configs();
    assert_eq!(p.len(), 2);
    assert_eq!(p[0].offset, (20, 0));
    assert_eq!(p[0].trigger, PopupTrigger::Click);
    assert!(p[0].has_default_padding);
    assert!(!p[1].has_default_padding);
}
