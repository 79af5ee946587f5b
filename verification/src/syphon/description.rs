//! Server description as exchanged through distributed notifications.

use vstd::prelude::*;

use crate::format::PixelFormat;
use crate::info::SenderInfo;
use crate::syphon::constants::{DICTIONARY_VERSION, SURFACE_TYPE_IOSURFACE};
use crate::text::{str_eq, texts};

verus! {

/// Description of a Syphon server.
///
/// This is the platform independent view of the
/// `SyphonServerDescription*` dictionary. Servers publish it in the
/// `ServerAnnounce` / `ServerUpdate` / `ServerRetire` notifications and
/// directories collect them.
#[derive(Debug, Clone, PartialEq, Eq)]
pub struct ServerDescription {
    /// Dictionary version (`SyphonServerDescriptionDictionaryVersionKey`).
    pub version: u32,
    /// `info.v002.Syphon.<UUID>`; also the server's `CFMessagePort` name.
    pub uuid: String,
    /// User visible server name (may be empty).
    pub name: String,
    /// Hosting application name.
    pub app_name: String,
    /// Surface types offered by the server (`SyphonSurfaceType` values).
    pub surfaces: Vec<String>,
}

/// The surface types present in a list of possibly missing ones, in order.
pub open spec fn present_surfaces(types: Seq<Option<String>>) -> Seq<String>
    decreases types.len(),
{
    if types.len() == 0 {
        seq![]
    } else {
        let rest = present_surfaces(types.drop_last());
        match types.last() {
            Some(t) => rest.push(t),
            None => rest,
        }
    }
}

impl ServerDescription {
    /// Whether the server offers an IOSurface.
    pub open spec fn offers_iosurface(self) -> bool {
        texts(self.surfaces@).contains(SURFACE_TYPE_IOSURFACE@)
    }

    /// Whether `needle` is the server's UUID or name.
    pub open spec fn is_named(self, needle: Seq<char>) -> bool {
        self.uuid@ == needle || self.name@ == needle
    }

    /// The name a sender list shows for the server: its name, or the
    /// application name when the server has none.
    pub open spec fn display_name(self) -> Seq<char> {
        if self.name@.len() == 0 {
            self.app_name@
        } else {
            self.name@
        }
    }

    /// Description for a new IOSurface server.
    pub fn new(uuid: &str, name: &str, app_name: &str) -> (r: Self)
        ensures
            r.version == DICTIONARY_VERSION,
            r.uuid@ == uuid@,
            r.name@ == name@,
            r.app_name@ == app_name@,
            texts(r.surfaces@) == seq![SURFACE_TYPE_IOSURFACE@],
    {
        let surfaces = vec![SURFACE_TYPE_IOSURFACE.to_owned()];
        assert(texts(surfaces@) =~= seq![SURFACE_TYPE_IOSURFACE@]);
        ServerDescription {
            version: DICTIONARY_VERSION,
            uuid: uuid.to_owned(),
            name: name.to_owned(),
            app_name: app_name.to_owned(),
            surfaces,
        }
    }

    /// Whether two descriptions hold the same contents.
    pub open spec fn same_as(self, other: Self) -> bool {
        &&& self.version == other.version
        &&& self.uuid == other.uuid
        &&& self.name == other.name
        &&& self.app_name == other.app_name
        &&& self.surfaces@ == other.surfaces@
    }

    /// A description with the same contents.
    pub fn duplicate(&self) -> (r: Self)
        ensures
            r.same_as(*self),
    {
        let mut surfaces: Vec<String> = Vec::new();
        let mut i: usize = 0;
        while i < self.surfaces.len()
            invariant
                i <= self.surfaces@.len(),
                surfaces@ == self.surfaces@.take(i as int),
            decreases self.surfaces@.len() - i,
        {
            surfaces.push(self.surfaces[i].clone());
            assert(surfaces@ =~= self.surfaces@.take(i + 1));
            i = i + 1;
        }
        assert(surfaces@ =~= self.surfaces@);
        ServerDescription {
            version: self.version,
            uuid: self.uuid.clone(),
            name: self.name.clone(),
            app_name: self.app_name.clone(),
            surfaces,
        }
    }

    /// The description a server notification carries, from the values its
    /// `userInfo` dictionary holds: `uuid` (`None` when the UUID key is
    /// missing or not a string, and then there is no description), the
    /// version (0 when missing), the names (empty when missing) and, for
    /// each entry of the surfaces array, its surface type (`None` for an
    /// entry that is not a dictionary holding a string type, which is
    /// skipped).
    pub fn from_fields(
        uuid: Option<String>,
        version: Option<u32>,
        name: Option<String>,
        app_name: Option<String>,
        surface_types: Vec<Option<String>>,
    ) -> (r: Option<Self>)
        ensures
            match r {
                Some(d) => {
                    &&& uuid matches Some(u) && d.uuid == u
                    &&& d.version == match version {
                        Some(v) => v,
                        None => 0,
                    }
                    &&& d.name@ == match name {
                        Some(n) => n@,
                        None => Seq::empty(),
                    }
                    &&& d.app_name@ == match app_name {
                        Some(n) => n@,
                        None => Seq::empty(),
                    }
                    &&& d.surfaces@ == present_surfaces(surface_types@)
                },
                None => uuid is None,
            },
    {
        let uuid = match uuid {
            Some(u) => u,
            None => return None,
        };
        let version = match version {
            Some(v) => v,
            None => 0,
        };
        let name = match name {
            Some(n) => n,
            None => String::new(),
        };
        let app_name = match app_name {
            Some(n) => n,
            None => String::new(),
        };
        let mut surfaces: Vec<String> = Vec::new();
        let mut i: usize = 0;
        while i < surface_types.len()
            invariant
                i <= surface_types@.len(),
                surfaces@ == present_surfaces(surface_types@.take(i as int)),
            decreases surface_types@.len() - i,
        {
            assert(surface_types@.take(i + 1).drop_last() =~= surface_types@.take(i as int));
            match &surface_types[i] {
                Some(t) => surfaces.push(t.clone()),
                None => {},
            }
            i = i + 1;
        }
        assert(surface_types@.take(surface_types@.len() as int) =~= surface_types@);
        Some(ServerDescription { version, uuid, name, app_name, surfaces })
    }

    /// Whether the server shares through IOSurface (the only supported type).
    pub fn supports_iosurface(&self) -> (r: bool)
        ensures
            r == self.offers_iosurface(),
    {
        let mut i: usize = 0;
        while i < self.surfaces.len()
            invariant
                i <= self.surfaces@.len(),
                forall|j: int| 0 <= j < i ==> self.surfaces@[j]@ != SURFACE_TYPE_IOSURFACE@,
            decreases self.surfaces@.len() - i,
        {
            if str_eq(self.surfaces[i].as_str(), SURFACE_TYPE_IOSURFACE) {
                assert(texts(self.surfaces@)[i as int] == SURFACE_TYPE_IOSURFACE@);
                return true;
            }
            i = i + 1;
        }
        assert forall|j: int| 0 <= j < self.surfaces@.len() implies texts(self.surfaces@)[j]
            != SURFACE_TYPE_IOSURFACE@ by {
            assert(texts(self.surfaces@)[j] == self.surfaces@[j]@);
        }
        false
    }

    /// Whether `needle` matches this server's UUID or name.
    pub fn matches(&self, needle: &str) -> (r: bool)
        ensures
            r == self.is_named(needle@),
    {
        str_eq(self.uuid.as_str(), needle) || str_eq(self.name.as_str(), needle)
    }

    /// Convert to the unified [`SenderInfo`] with the given geometry.
    ///
    /// Syphon descriptions do not carry the frame size; it is only known once
    /// a client connected and looked up the surface, so `width` / `height`
    /// are passed in (0 when unknown).
    pub fn to_sender_info(&self, width: u32, height: u32) -> (r: SenderInfo)
        ensures
            r.id@ == self.uuid@,
            r.name@ == self.display_name(),
            self.app_name@.len() == 0 ==> r.app_name is None,
            self.app_name@.len() > 0 ==> (r.app_name matches Some(a) && a@ == self.app_name@),
            r.width == width,
            r.height == height,
            r.format == PixelFormat::Bgra8Unorm,
    {
        SenderInfo {
            id: self.uuid.clone(),
            name: if self.name.as_str().is_empty() {
                self.app_name.clone()
            } else {
                self.name.clone()
            },
            app_name: if self.app_name.as_str().is_empty() {
                None
            } else {
                Some(self.app_name.clone())
            },
            width,
            height,
            format: PixelFormat::Bgra8Unorm,
        }
    }
}

} // verus!
