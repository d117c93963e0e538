//! Picks a random JPEG or PNG image out of a directory listing and plans the
//! GNOME settings that make it the desktop background and screensaver image.

mod apply;
mod error;
mod select;

pub use apply::{
    change_wallpaper, check_command, gsettings_set, set_picture_uri, settings_plan, Applier,
    CommandOutput, Setting,
};
pub use error::WallpaperError;
pub use select::{candidates, is_image_ext, select_candidate, select_wallpaper, Entry};
