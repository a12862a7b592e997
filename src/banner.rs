use crate::popup::{PopupConfig, PopupTrigger};
use crate::theme_channel::{SubscriptionHandle, ThemeChannel};
use vstd::prelude::*;

verus! {

/// Base name of the banner's scoped CSS class.
pub const BANNER_STYLE_NAME: &'static str = "Banner";

/// The banner's style sheet, scoped under its generated class.
pub const BANNER_CSS: &'static str = r#"
            width: 100%;
            height: 244px;

            .wrapper {
                position: relative;
            }

            .greeter {
                padding-top: 31px;
                display: flex;
            }

            .greeter-text {
                margin-right: 13px;
                font-size: 30px;
                font-weight: 500;
                color: var(--banner-text-color);
                line-height: 42px;
            }

            .desc {
                margin-top: 14px;
                font-size: 14px;
                font-weight: 300;
                color: var(--banner-text-color);
                line-height: 20px;
                width: 729px;
            }

            .contact-title {
                font-size: 18px;
                font-weight: 500;
                color: var(--banner-text-color);
                line-height: 25px;
                padding-top: 14px;
            }

            .contacts {
                margin-top: 14px;
                display: flex;
                align-items: center;
            }

            .contact-icon {
                margin-right: 10px;
            }

            .illustration {
                position: absolute;
                right: 0;
                top: 61px;
                right: -50px;
            }

            .wechat-qr-code {
                width: 200px;
                height: 200px;
            }

            .discord-popup-body {
                width: 106px;
            }

            @media (max-width: 600px) {
                height: auto;
                padding-bottom: 10px;

                .illustration {
                    display: none;
                }
                
                .desc {
                    width: 100%;
                }
            }
        "#;

/// Relies on css_in_rust::Style::create, which registers `css` under a new
/// class name made of `name`, a dash and a random non-empty suffix, and on
/// Style::get_class_name, which returns that class name.
#[verifier::external_body]
fn scoped_class_name(name: &str, css: &str) -> (r: Result<String, String>)
    ensures
        r is Ok ==> has_scoped_prefix(r->Ok_0@, name@),
{
    match css_in_rust::Style::create(name, css) {
        Ok(style) => Ok(style.get_class_name()),
        Err(e) => Err(e),
    }
}

/// `class` is `name`, a dash, and at least one more character.
pub open spec fn has_scoped_prefix(class: Seq<char>, name: Seq<char>) -> bool {
    &&& class.len() > name.len() + 1
    &&& class.subrange(0, name.len() as int) == name
    &&& class[name.len() as int] == '-'
}

/// Inputs of the banner.
#[derive(Clone, Debug)]
pub struct BannerProps {
    pub bg_color: String,
    pub illustration: String,
    /// Inline style for the illustration, if any.
    pub illustration_style: Option<&'static str>,
}

/// Messages the banner reacts to.
#[derive(Clone, Copy, Debug, PartialEq, Eq, Structural)]
pub enum BannerMessage {
    /// The site theme changed.
    ChangeTheme,
}

/// One contact link shown as an icon.
#[derive(Clone, Copy, Debug)]
pub struct ContactInfo {
    pub name: &'static str,
    pub url: &'static str,
}

/// The banner: scoped style, inputs, and its subscription to theme changes.
pub struct Banner {
    pub class_name: String,
    pub props: BannerProps,
    pub subscription: SubscriptionHandle,
}

/// The contact links, in display order.
pub fn contacts() -> (r: Vec<ContactInfo>)
    ensures
        r@.len() == 3,
        r@[0].name@ == "github"@ && r@[0].url@ == "https://github.com/mistricky"@,
        r@[1].name@ == "twitter"@ && r@[1].url@ == "https://twitter.com/_mistricky"@,
        r@[2].name@ == "mail"@ && r@[2].url@ == "Mailto:mist.zzh@gmail.com"@,
{
    let mut r: Vec<ContactInfo> = Vec::new();
    r.push(ContactInfo { name: "github", url: "https://github.com/mistricky" });
    r.push(ContactInfo { name: "twitter", url: "https://twitter.com/_mistricky" });
    r.push(ContactInfo { name: "mail", url: "Mailto:mist.zzh@gmail.com" });
    r
}

/// Image path of the icon for the contact called `name`.
pub fn contact_icon_src(name: &str) -> (r: String)
    ensures
        r@ == "/images/"@ + name@ + "_icon.svg"@,
{
    let r = String::from_str("/images/");
    let r = r.concat(name);
    r.concat("_icon.svg")
}

/// Options of the two contact popups: the chat handle (with the panel's
/// own padding) and the QR code (without), both opened by a click and
/// offset 20 pixels to the right.
pub fn contact_popup_configs() -> (r: Vec<PopupConfig>)
    ensures
        r@.len() == 2,
        r@[0] == (PopupConfig { offset: (20, 0), trigger: PopupTrigger::Click, has_default_padding: true }),
        r@[1] == (PopupConfig { offset: (20, 0), trigger: PopupTrigger::Click, has_default_padding: false }),
{
    let mut r: Vec<PopupConfig> = Vec::new();
    r.push(PopupConfig { offset: (20, 0), trigger: PopupTrigger::Click, has_default_padding: true });
    r.push(PopupConfig { offset: (20, 0), trigger: PopupTrigger::Click, has_default_padding: false });
    r
}

impl Banner {
    /// Builds the banner from the outcome of scoping its style: on a class
    /// name it subscribes to `channel` and keeps the handle; on an error it
    /// hands the error back and leaves the channel alone.
    pub fn assemble(props: BannerProps, styled: Result<String, String>, channel: &mut ThemeChannel) -> (r: Result<Banner, String>)
        requires
            old(channel).wf(),
            old(channel)@.next_id < u64::MAX,
        ensures
            final(channel).wf(),
            match styled {
                Ok(class) => r is Ok && r->Ok_0.class_name == class && r->Ok_0.props == props
                    && r->Ok_0.subscription == old(channel)@.fresh_handle()
                    && final(channel)@ == old(channel)@.subscribed(),
                Err(e) => r == Err::<Banner, String>(e) && final(channel)@ == old(channel)@,
            },
    {
        match styled {
            Ok(class_name) => {
                let subscription = channel.subscribe();
                Ok(Banner { class_name, props, subscription })
            },
            Err(e) => Err(e),
        }
    }

    /// Scopes the banner's style sheet and builds the banner subscribed to
    /// theme changes on `channel`. On success the class name is the base
    /// name, a dash and a generated suffix.
    pub fn create(props: BannerProps, channel: &mut ThemeChannel) -> (r: Result<Banner, String>)
        requires
            old(channel).wf(),
            old(channel)@.next_id < u64::MAX,
        ensures
            final(channel).wf(),
            r is Ok ==> r->Ok_0.props == props && r->Ok_0.subscription == old(channel)@.fresh_handle()
                && final(channel)@ == old(channel)@.subscribed()
                && has_scoped_prefix(r->Ok_0.class_name@, BANNER_STYLE_NAME@),
            r is Err ==> final(channel)@ == old(channel)@,
    {
        let styled = scoped_class_name(BANNER_STYLE_NAME, BANNER_CSS);
        Banner::assemble(props, styled, channel)
    }

    /// Handles a message; every theme change asks for a re-render.
    pub fn update(&mut self, msg: BannerMessage) -> (r: bool)
        ensures
            r,
            *final(self) == *old(self),
    {
        match msg {
            BannerMessage::ChangeTheme => true,
        }
    }

    /// New inputs from the parent are ignored and cause no re-render.
    pub fn change(&mut self, props: BannerProps) -> (r: bool)
        ensures
            !r,
            *final(self) == *old(self),
    {
        false
    }

    /// Ends the banner's subscription, as on unmount.
    pub fn destroy(&self, channel: &mut ThemeChannel)
        requires
            old(channel).wf(),
        ensures
            final(channel).wf(),
            final(channel)@ == old(channel)@.unsubscribed(self.subscription),
    {
        channel.unsubscribe(self.subscription);
    }

    /// Inline style of the outer panel: its background colour.
    pub fn background_style(&self) -> (r: String)
        ensures
            r@ == "background: "@ + self.props.bg_color@ + ";"@,
    {
        let r = String::from_str("background: ");
        let r = r.concat(self.props.bg_color.as_str());
        r.concat(";")
    }

    /// Inline style of the illustration; empty when none was given.
    pub fn illustration_style(&self) -> (r: &'static str)
        ensures
            r@ == match self.props.illustration_style {
                Some(s) => s@,
                None => ""@,
            },
    {
        match self.props.illustration_style {
            Some(s) => s,
            None => "",
        }
    }
}

} // verus!
