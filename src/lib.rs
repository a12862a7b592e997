//! Theme broadcast channel and popup overlay logic behind a site banner.

pub mod banner;
pub mod popup;
pub mod theme_channel;

pub use banner::{Banner, BannerMessage, BannerProps, ContactInfo};
pub use popup::{Placement, Point, Popup, PopupAction, PopupConfig, PopupEvent, PopupTrigger, Rect};
pub use theme_channel::{ChannelView, SubscriptionHandle, ThemeChannel};
