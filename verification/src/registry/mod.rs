//! Catalogs of content definitions: how they are read from a document, looked
//! up and spawned. The submodules hold the schema of the definitions, the
//! derivation of the sprite-sheet layout, and the resolution of sprites.

pub mod items;
pub mod resolver;
pub mod schema;
pub mod tracker;

pub use resolver::{Resolution, Visual};
pub use schema::{IndexConfig, SpriteRef};
pub use tracker::{RegistryAccess, RegistryHandle, RegistryHandles};

use crate::atlas::AtlasConfig;
use crate::identifier::Identifier;
use crate::json::{json_of_text, text_from_bytes, Json};
use std::marker::PhantomData;
use vstd::hash_map::StringHashMap;
use vstd::pervasive::strictly_cloned;
use vstd::prelude::*;
use vstd::utf8::{decode_utf8, encode_utf8_decode_utf8, valid_utf8};

verus! {

/// A kind of content definition that a catalog can hold.
pub trait ContentKind: Sized {
    /// The definition that a document describes, or `None` where the document
    /// describes none.
    spec fn described(doc: Json) -> Option<Self>;

    /// Reads a definition from its document.
    fn from_json(doc: &Json) -> (item: Option<Self>)
        ensures
            item == Self::described(*doc),
    ;
}

/// Why a catalog could not be loaded.
#[derive(Clone, Copy, Debug, PartialEq, Eq, Structural)]
pub enum RegistryLoadError {
    /// The bytes could not be read as text.
    IoError,
    /// The text is not JSON, or the document is not a catalog.
    JsonError,
}

/// The definitions of one content kind under their identifiers, the name of
/// the catalog, and the grid of its sprite sheet where it has one.
#[verifier::reject_recursive_types(Item)]
pub struct Registry<Item> {
    items: StringHashMap<Item>,
    identifier: String,
    atlas_layout: Option<AtlasConfig>,
}

/// What a catalog holds.
pub struct RegistryView<Item> {
    pub items: Map<Seq<char>, Item>,
    pub identifier: Seq<char>,
    pub atlas_layout: Option<AtlasConfig>,
}

impl<Item> View for Registry<Item> {
    type V = RegistryView<Item>;

    closed spec fn view(&self) -> RegistryView<Item> {
        RegistryView {
            items: self.items@,
            identifier: self.identifier@,
            atlas_layout: self.atlas_layout,
        }
    }
}

/// The definitions that the members of an `items` object describe, each under
/// the name of its member, or `None` where a member describes none.
pub open spec fn items_of<Item: ContentKind>(members: Seq<(String, Json)>) -> Option<
    Map<Seq<char>, Item>,
>
    decreases members.len(),
{
    if members.len() == 0 {
        Some(Map::empty())
    } else {
        match (items_of::<Item>(members.drop_last()), Item::described(members.last().1)) {
            (Some(items), Some(item)) => Some(items.insert(members.last().0@, item)),
            _ => None,
        }
    }
}

/// The grid that an `atlas_layout` member declares: none where the member is
/// missing or null. The outer `None` stands for a member that is no grid.
pub open spec fn atlas_of(member: Option<Json>) -> Option<Option<AtlasConfig>> {
    match member {
        None => Some(None),
        Some(Json::Null) => Some(None),
        Some(doc) => match AtlasConfig::described(doc) {
            Some(config) => Some(Some(config)),
            None => None,
        },
    }
}

/// The catalog that a document describes: an object whose member `items` is
/// an object of definitions, whose member `identifier` is a text, and whose
/// member `atlas_layout`, where there is one, is a grid.
pub open spec fn catalog_of<Item: ContentKind>(doc: Json) -> Option<RegistryView<Item>> {
    match (doc.spec_member("items"@), doc.spec_member("identifier"@)) {
        (Some(Json::Object(members)), Some(Json::Text(name))) => match (
            items_of::<Item>(members@),
            atlas_of(doc.spec_member("atlas_layout"@)),
        ) {
            (Some(items), Some(atlas_layout)) => Some(
                RegistryView { items, identifier: name@, atlas_layout },
            ),
            _ => None,
        },
        _ => None,
    }
}

/// What loading a text gives: a JSON error for a text that is no JSON or no
/// catalog, and the catalog otherwise.
pub open spec fn loaded_text<Item: ContentKind>(text: Seq<char>) -> Result<
    RegistryView<Item>,
    RegistryLoadError,
> {
    match json_of_text(text) {
        Some(doc) => match catalog_of::<Item>(doc) {
            Some(catalog) => Ok(catalog),
            None => Err(RegistryLoadError::JsonError),
        },
        None => Err(RegistryLoadError::JsonError),
    }
}

/// What loading a byte string gives: an I/O error for bytes that are no
/// text, and otherwise what loading the text gives.
pub open spec fn loaded<Item: ContentKind>(bytes: Seq<u8>) -> Result<
    RegistryView<Item>,
    RegistryLoadError,
> {
    if !valid_utf8(bytes) {
        Err(RegistryLoadError::IoError)
    } else {
        loaded_text::<Item>(decode_utf8(bytes))
    }
}

impl<Item: ContentKind> Registry<Item> {
    /// Builds the catalog that a document describes.
    pub fn from_json(doc: &Json) -> (catalog: Result<Registry<Item>, RegistryLoadError>)
        ensures
            match catalog {
                Ok(registry) => catalog_of::<Item>(*doc) == Some(registry@),
                Err(error) => error == RegistryLoadError::JsonError && catalog_of::<Item>(*doc)
                    is None,
            },
    {
        let members = match doc.member("items") {
            Some(Json::Object(members)) => members,
            _ => {
                return Err(RegistryLoadError::JsonError);
            },
        };
        let name = match doc.member("identifier") {
            Some(Json::Text(name)) => name,
            _ => {
                return Err(RegistryLoadError::JsonError);
            },
        };
        let atlas_layout = match doc.member("atlas_layout") {
            None => None,
            Some(Json::Null) => None,
            Some(grid) => match AtlasConfig::from_json(grid) {
                Some(config) => Some(config),
                None => {
                    return Err(RegistryLoadError::JsonError);
                },
            },
        };
        let mut items: StringHashMap<Item> = StringHashMap::new();
        let mut i: usize = 0;
        assert(members@.take(0) =~= Seq::empty());
        while i < members.len()
            invariant
                i <= members.len(),
                items_of::<Item>(members@.take(i as int)) == Some(items@),
                doc.spec_member("items"@) == Some(Json::Object(*members)),
            decreases members.len() - i,
        {
            assert(members@.take(i as int + 1).drop_last() =~= members@.take(i as int));
            assert(members@.take(i as int + 1).last() == members@[i as int]);
            match Item::from_json(&members[i].1) {
                Some(item) => {
                    items.insert(members[i].0.clone(), item);
                },
                None => {
                    proof {
                        if items_of::<Item>(members@) is Some {
                            lemma_items_of_prefix::<Item>(members@, i as int + 1);
                        }
                    }
                    return Err(RegistryLoadError::JsonError);
                },
            }
            i += 1;
        }
        assert(members@.take(i as int) =~= members@);
        Ok(Registry { items, identifier: name.clone(), atlas_layout })
    }

    /// Reads a catalog from the text of a JSON document.
    pub fn load_str(text: &str) -> (catalog: Result<Registry<Item>, RegistryLoadError>)
        ensures
            match catalog {
                Ok(registry) => loaded_text::<Item>(text@) == Ok::<
                    RegistryView<Item>,
                    RegistryLoadError,
                >(registry@),
                Err(error) => loaded_text::<Item>(text@) == Err::<
                    RegistryView<Item>,
                    RegistryLoadError,
                >(error),
            },
    {
        match Json::parse(text) {
            Some(doc) => Self::from_json(&doc),
            None => Err(RegistryLoadError::JsonError),
        }
    }

    /// Reads a catalog from the bytes of its file. Nothing is produced unless
    /// the whole file is a catalog.
    pub fn load(bytes: &[u8]) -> (catalog: Result<Registry<Item>, RegistryLoadError>)
        ensures
            match catalog {
                Ok(registry) => loaded::<Item>(bytes@) == Ok::<
                    RegistryView<Item>,
                    RegistryLoadError,
                >(registry@),
                Err(error) => loaded::<Item>(bytes@) == Err::<RegistryView<Item>, RegistryLoadError>(
                    error,
                ),
            },
    {
        match text_from_bytes(bytes) {
            Some(text) => {
                proof {
                    encode_utf8_decode_utf8(text@);
                }
                Self::load_str(text)
            },
            None => Err(RegistryLoadError::IoError),
        }
    }
}

/// Where the members of an object describe a catalog's items, so does every
/// prefix of them.
pub proof fn lemma_items_of_prefix<Item: ContentKind>(members: Seq<(String, Json)>, n: int)
    requires
        0 <= n <= members.len(),
        items_of::<Item>(members) is Some,
    ensures
        items_of::<Item>(members.take(n)) is Some,
    decreases members.len(),
{
    if n == members.len() {
        assert(members.take(n) =~= members);
    } else {
        lemma_items_of_prefix::<Item>(members.drop_last(), n);
        assert(members.drop_last().take(n) =~= members.take(n));
    }
}

impl<Item> Registry<Item> {
    /// The name of the catalog.
    pub fn identifier(&self) -> (name: &str)
        ensures
            name@ == self@.identifier,
    {
        self.identifier.as_str()
    }

    /// The grid of the catalog's sprite sheet, where it declares one.
    pub fn atlas_layout(&self) -> (config: Option<AtlasConfig>)
        ensures
            config == self@.atlas_layout,
    {
        self.atlas_layout
    }

    /// Whether the catalog holds a definition under `identifier`.
    pub fn contains(&self, identifier: &Identifier) -> (held: bool)
        ensures
            held == self@.items.contains_key(identifier@),
    {
        self.items.contains_key(identifier.as_str())
    }

    /// The number of definitions.
    pub fn len(&self) -> (n: usize)
        ensures
            n == self@.items.len(),
    {
        self.items.len()
    }
}

/// The entities that are waiting to be created, oldest first. Each is the
/// bundle of what it will carry.
pub struct Commands<B> {
    spawned: Vec<B>,
}

impl<B> View for Commands<B> {
    type V = Seq<B>;

    closed spec fn view(&self) -> Seq<B> {
        self.spawned@
    }
}

impl<B> Commands<B> {
    pub fn new() -> (commands: Commands<B>)
        ensures
            commands@ == Seq::<B>::empty(),
    {
        Commands { spawned: Vec::new() }
    }

    /// Asks for one more entity, which will carry `bundle`.
    pub fn spawn(&mut self, bundle: B)
        ensures
            final(self)@ == old(self)@.push(bundle),
    {
        self.spawned.push(bundle);
    }

    /// The number of entities asked for.
    pub fn len(&self) -> (n: usize)
        ensures
            n == self@.len(),
    {
        self.spawned.len()
    }

    /// Hands the bundles out, oldest first.
    pub fn into_spawned(self) -> (bundles: Vec<B>)
        ensures
            bundles@ == self@,
    {
        self.spawned
    }
}

impl<Item: Clone> Registry<Item> {
    /// A copy of the definition under `identifier`, or `None` where the
    /// catalog holds none under it. The catalog keeps its own.
    pub fn get(&self, identifier: &Identifier) -> (item: Option<Item>)
        ensures
            match item {
                Some(copy) => self@.items.contains_key(identifier@) && strictly_cloned::<Item>(
                    self@.items[identifier@],
                    copy,
                ),
                None => !self@.items.contains_key(identifier@),
            },
    {
        match self.items.get(identifier.as_str()) {
            Some(item) => Some(item.clone()),
            None => None,
        }
    }

    /// Asks for a new entity that carries a copy of the definition under
    /// `identifier` together with `addition`. Returns whether the catalog
    /// holds such a definition; where it does not, nothing is asked for.
    pub fn spawn<A>(
        &self,
        commands: &mut Commands<(Item, A)>,
        identifier: &Identifier,
        addition: A,
    ) -> (spawned: bool)
        ensures
            spawned == self@.items.contains_key(identifier@),
            !spawned ==> final(commands)@ == old(commands)@,
            spawned ==> {
                &&& final(commands)@.len() == old(commands)@.len() + 1
                &&& final(commands)@.drop_last() == old(commands)@
                &&& final(commands)@.last().1 == addition
                &&& strictly_cloned::<Item>(self@.items[identifier@], final(commands)@.last().0)
            },
    {
        let item = self.get(identifier);
        if let Some(v) = item {
            commands.spawn((v, addition));
            assert(commands@.drop_last() =~= old(commands)@);
            return true;
        }
        false
    }
}

/// Reads catalogs of one content kind from their files.
pub struct RegistryLoader<Item> {
    kind: PhantomData<Item>,
}

impl<Item> Default for RegistryLoader<Item> {
    fn default() -> RegistryLoader<Item> {
        RegistryLoader { kind: PhantomData }
    }
}

impl<Item: ContentKind> RegistryLoader<Item> {
    /// Reads a catalog from the bytes of its file.
    pub fn load(&self, bytes: &[u8]) -> (catalog: Result<Registry<Item>, RegistryLoadError>)
        ensures
            match catalog {
                Ok(registry) => loaded::<Item>(bytes@) == Ok::<
                    RegistryView<Item>,
                    RegistryLoadError,
                >(registry@),
                Err(error) => loaded::<Item>(bytes@) == Err::<RegistryView<Item>, RegistryLoadError>(
                    error,
                ),
            },
    {
        Registry::load(bytes)
    }

    /// The endings of the file names that hold catalogs.
    pub fn extensions(&self) -> (endings: [&'static str; 2])
        ensures
            endings@ == seq!["json", "registry.json"],
    {
        let endings = ["json", "registry.json"];
        assert(endings@ =~= seq!["json", "registry.json"]);
        endings
    }
}

/// Loading is a function of the bytes: two loads of the same file end alike,
/// and where they end well the two catalogs hold the same items under the
/// same names and declare the same grid.
pub proof fn lemma_load_is_deterministic<Item: ContentKind>(
    bytes: Seq<u8>,
    first: Result<RegistryView<Item>, RegistryLoadError>,
    second: Result<RegistryView<Item>, RegistryLoadError>,
)
    requires
        first == loaded::<Item>(bytes),
        second == loaded::<Item>(bytes),
    ensures
        first == second,
        first matches Ok(a) ==> second matches Ok(b) && a.items == b.items && a.identifier
            == b.identifier && a.atlas_layout == b.atlas_layout,
{
}

/// A document without the member `identifier` describes no catalog.
pub proof fn lemma_missing_identifier_is_refused<Item: ContentKind>(doc: Json)
    requires
        doc.spec_member("identifier"@) is None,
    ensures
        catalog_of::<Item>(doc) is None,
{
}

/// A file whose document lacks the member `identifier` fails to load with a
/// JSON error.
pub proof fn lemma_file_without_identifier_fails<Item: ContentKind>(bytes: Seq<u8>, doc: Json)
    requires
        valid_utf8(bytes),
        json_of_text(decode_utf8(bytes)) == Some(doc),
        doc.spec_member("identifier"@) is None,
    ensures
        loaded::<Item>(bytes) == Err::<RegistryView<Item>, RegistryLoadError>(
            RegistryLoadError::JsonError,
        ),
{
}

} // verus!
