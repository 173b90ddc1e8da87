//! A tile server: a URL template and the zoom level it is queried at.
use vstd::prelude::*;

use crate::digits::{decimal, to_decimal};
use crate::template::{fill, fill_template};

verus! {

/// A tile server URL template, with `{x}`, `{y}` and `{z}` placeholders, and a
/// fixed zoom level. The template's content is not checked.
#[derive(Debug, Eq, PartialEq, Clone)]
pub struct TailServerUrl {
    url: String,
    z: u8,
}

impl TailServerUrl {
    /// The URL template.
    pub closed spec fn template(&self) -> Seq<char> {
        self.url@
    }

    /// The zoom level that every URL of this server carries.
    pub closed spec fn zoom(&self) -> u8 {
        self.z
    }

    /// The URL of tile `(x, y)`: the template with each placeholder replaced by
    /// the decimal form of its value.
    pub open spec fn url_spec(&self, x: nat, y: nat) -> Seq<char> {
        fill(self.template(), decimal(x), decimal(y), decimal(self.zoom() as nat))
    }

    /// A server with the given template and zoom level (0 is the whole world in
    /// one tile; 18 is the usual maximum, some servers go further).
    pub fn new(url: &str, z: u8) -> (r: TailServerUrl)
        ensures
            r.template() == url@,
            r.zoom() == z,
    {
        TailServerUrl { url: String::from_str(url), z }
    }

    /// The standard OpenStreetMap tile server,
    /// `https://tile.openstreetmap.org/{z}/{x}/{y}.png` (zoom levels 0 to 19).
    pub fn new_openstreetmap(z: u8) -> (r: TailServerUrl)
        ensures
            r.template() == "https://tile.openstreetmap.org/{z}/{x}/{y}.png"@,
            r.zoom() == z,
    {
        TailServerUrl::new("https://tile.openstreetmap.org/{z}/{x}/{y}.png", z)
    }

    /// The zoom level.
    pub fn zoom_level(&self) -> (r: u8)
        ensures
            r == self.zoom(),
    {
        self.z
    }

    /// The URL of tile `(x, y)` at this server's zoom level.
    pub fn url(&self, x: u64, y: u64) -> (r: String)
        ensures
            r@ == self.url_spec(x as nat, y as nat),
    {
        let xs = to_decimal(x);
        let ys = to_decimal(y);
        let zs = to_decimal(self.z as u64);
        fill_template(self.url.as_str(), xs.as_str(), ys.as_str(), zs.as_str())
    }
}

} // verus!
