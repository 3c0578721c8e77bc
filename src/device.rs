//! A paired device: where it is reached and what it accepts.
use vstd::prelude::*;
use crate::model::{Device, DeviceInfo};

verus! {

/// A media type as the device's capability check reads it: the essence
/// (`type/subtype`, with any suffix, without parameters), the top-level type
/// and the subtype.
pub struct MimeName {
    pub essence: String,
    pub type_: String,
    pub subtype: String,
}

/// Whether some string of `list` reads `s`.
pub open spec fn lists(list: Seq<String>, s: Seq<char>) -> bool {
    exists|i: int| 0 <= i < list.len() && (#[trigger] list[i])@ == s
}

/// The `x-` prefixed form of a media type: `type/x-subtype`.
pub open spec fn x_prefixed(type_: Seq<char>, subtype: Seq<char>) -> Seq<char> {
    type_ + seq!['/', 'x', '-'] + subtype
}

/// Whether a device whose supported types are `supported` takes `m`: its
/// essence is listed, or else its `x-` prefixed form is.
pub open spec fn mime_accepted(supported: Seq<String>, m: MimeName) -> bool {
    lists(supported, m.essence@) || lists(supported, x_prefixed(m.type_@, m.subtype@))
}

/// The index of the first string of `list` that reads `s`, if any.
fn find_listed(list: &Vec<String>, s: &String) -> (r: Option<usize>)
    ensures
        r matches Some(i) ==> i < list@.len() && list@[i as int]@ == s@,
        r.is_none() ==> !lists(list@, s@),
{
    let mut i: usize = 0;
    while i < list.len()
        invariant
            i <= list@.len(),
            forall|j: int| 0 <= j < i ==> (#[trigger] list@[j])@ != s@,
        decreases list@.len() - i,
    {
        if list[i] == *s {
            return Some(i);
        }
        i = i + 1;
    }
    None
}

/// A device reached over the local network.
pub struct DeviceClient {
    info: DeviceInfo,
    base_uri: String,
    push_token: Option<Device>,
}

impl DeviceClient {
    /// A device at `base_uri` that reported `info`; `push_token` is the
    /// record it asked to have saved, if any.
    pub fn new(base_uri: String, info: DeviceInfo, push_token: Option<Device>) -> (r: DeviceClient)
        ensures
            r.spec_base_uri() == base_uri@,
            r.spec_supported_mimetypes() == info.supported_mimetypes@,
            r.spec_supported_extensions() == info.known_file_extensions@,
            r.spec_push_token() == push_token,
    {
        DeviceClient { info, base_uri, push_token }
    }

    /// The device's base URL.
    pub closed spec fn spec_base_uri(&self) -> Seq<char> {
        self.base_uri@
    }

    /// The media types that the device supports.
    pub closed spec fn spec_supported_mimetypes(&self) -> Seq<String> {
        self.info.supported_mimetypes@
    }

    /// The file extensions that the device knows.
    pub closed spec fn spec_supported_extensions(&self) -> Seq<String> {
        self.info.known_file_extensions@
    }

    /// The record the device asked to have saved.
    pub closed spec fn spec_push_token(&self) -> Option<Device> {
        self.push_token
    }

    /// The device's base URL.
    pub fn base_uri(&self) -> (r: &str)
        ensures
            r@ == self.spec_base_uri(),
    {
        self.base_uri.as_str()
    }

    /// The media types reported as supported by the device.
    pub fn supported_mimetypes(&self) -> (r: &Vec<String>)
        ensures
            r@ == self.spec_supported_mimetypes(),
    {
        &self.info.supported_mimetypes
    }

    /// If the device asked to be saved, its record (the "push token").
    pub fn push_token(&self) -> (r: Option<&Device>)
        ensures
            r.is_none() == self.spec_push_token().is_none(),
            r matches Some(d) ==> self.spec_push_token() == Some(*d),
    {
        self.push_token.as_ref()
    }

    /// The record to save after pairing: the device's push token, if it
    /// asked to be saved and is not saved already.
    pub fn token_to_save(&self, is_saved: bool) -> (r: Option<&Device>)
        ensures
            r.is_none() == (is_saved || self.spec_push_token().is_none()),
            r matches Some(d) ==> self.spec_push_token() == Some(*d),
    {
        if is_saved {
            None
        } else {
            self.push_token.as_ref()
        }
    }

    /// Whether the device supports the media type `m`, directly or in its
    /// `x-` prefixed form.
    pub fn mime_supported(&self, m: &MimeName) -> (r: bool)
        ensures
            r == mime_accepted(self.spec_supported_mimetypes(), *m),
    {
        if find_listed(&self.info.supported_mimetypes, &m.essence).is_some() {
            true
        } else {
            let mut x_mime = m.type_.clone();
            x_mime.append("/x-");
            x_mime.append(m.subtype.as_str());
            proof {
                reveal_strlit("/x-");
                assert(x_mime@ =~= x_prefixed(m.type_@, m.subtype@));
            }
            find_listed(&self.info.supported_mimetypes, &x_mime).is_some()
        }
    }

    /// The first of `candidates` that the device supports, if any.
    pub fn find_supported_mime(&self, candidates: &Vec<MimeName>) -> (r: Option<usize>)
        ensures
            r matches Some(i) ==> (i < candidates@.len() && mime_accepted(
                self.spec_supported_mimetypes(),
                candidates@[i as int],
            ) && forall|j: int| 0 <= j < i ==> !mime_accepted(self.spec_supported_mimetypes(), #[trigger] candidates@[j])),
            r.is_none() ==> forall|j: int| 0 <= j < candidates@.len() ==> !mime_accepted(
                self.spec_supported_mimetypes(),
                #[trigger] candidates@[j],
            ),
    {
        let mut i: usize = 0;
        while i < candidates.len()
            invariant
                i <= candidates@.len(),
                forall|j: int| 0 <= j < i ==> !mime_accepted(self.spec_supported_mimetypes(), #[trigger] candidates@[j]),
            decreases candidates@.len() - i,
        {
            if self.mime_supported(&candidates[i]) {
                return Some(i);
            }
            i = i + 1;
        }
        None
    }

    /// The file extensions reported as known by the device.
    pub fn supported_extensions(&self) -> (r: &Vec<String>)
        ensures
            r@ == self.spec_supported_extensions(),
    {
        &self.info.known_file_extensions
    }

    /// Whether a file with extension `ext` (none if the path has none, or
    /// one that is not UTF-8) has a known extension.
    pub fn extension_supported(&self, ext: Option<&str>) -> (r: bool)
        ensures
            r == (ext matches Some(e) && lists(self.spec_supported_extensions(), e@)),
    {
        match ext {
            Some(e) => {
                let s = e.to_owned();
                find_listed(&self.info.known_file_extensions, &s).is_some()
            },
            None => false,
        }
    }
}

} // verus!
