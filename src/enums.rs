use vstd::prelude::*;

verus! {

/// The text formats in which a default configuration can be written.
#[derive(Clone, Copy, Debug, PartialEq, Eq, Structural)]
pub enum SerializationFormat {
    Json,
    Json5,
    Toml,
    Ron,
}

/// The formats whose encoder the host application provides.
///
/// Each format is switched on independently; a request for a format that is
/// switched off is refused before anything is written.
#[derive(Clone, Copy, Debug)]
pub struct Backends {
    pub json: bool,
    pub json5: bool,
    pub toml: bool,
    pub ron: bool,
}

impl View for Backends {
    type V = Set<SerializationFormat>;

    open spec fn view(&self) -> Set<SerializationFormat> {
        Set::new(
            |f: SerializationFormat|
                match f {
                    SerializationFormat::Json => self.json,
                    SerializationFormat::Json5 => self.json5,
                    SerializationFormat::Toml => self.toml,
                    SerializationFormat::Ron => self.ron,
                },
        )
    }
}

impl Backends {
    /// A registry with no encoder in it.
    pub fn new() -> (r: Backends)
        ensures
            r@ == Set::<SerializationFormat>::empty(),
    {
        let r = Backends { json: false, json5: false, toml: false, ron: false };
        assert(r@ =~= Set::<SerializationFormat>::empty());
        r
    }

    /// The same registry with the encoder of `format` added.
    pub fn with(self, format: SerializationFormat) -> (r: Backends)
        ensures
            r@ == self@.insert(format),
    {
        let mut r = self;
        match format {
            SerializationFormat::Json => r.json = true,
            SerializationFormat::Json5 => r.json5 = true,
            SerializationFormat::Toml => r.toml = true,
            SerializationFormat::Ron => r.ron = true,
        }
        assert(r@ =~= self@.insert(format));
        r
    }

    /// Whether an encoder for `format` is present.
    pub fn supports(&self, format: SerializationFormat) -> (r: bool)
        ensures
            r == self@.contains(format),
    {
        match format {
            SerializationFormat::Json => self.json,
            SerializationFormat::Json5 => self.json5,
            SerializationFormat::Toml => self.toml,
            SerializationFormat::Ron => self.ron,
        }
    }
}

} // verus!
