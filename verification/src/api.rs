//! The catalogue of sets: titles, item counts and tile addresses, read from
//! the home document.

use crate::config::NUM_ROWS;
use crate::config::ROW_STRIDE;
use crate::json::child;
use crate::json::item;
use crate::json::or_null;
use crate::json::Json;
use vstd::prelude::*;

verus! {

/// The title of the set described by `entry`.
pub open spec fn title_of(entry: Json) -> Seq<char> {
    match entry.member("text"@).member("title"@).member("full"@).member("set"@).member(
        "default"@,
    ).member("content"@).text() {
        Some(title) => title,
        None => "Title not found"@,
    }
}

/// The number of items of the set described by `entry`.
pub open spec fn item_count_of(entry: Json) -> nat {
    match entry.member("items"@).array_len() {
        Some(count) => count,
        None => 0,
    }
}

/// The tiles, keyed by aspect ratio, of item `item_num` of the set described
/// by `entry`.
pub open spec fn tiles_of(entry: Json, item_num: nat) -> Json {
    entry.member("items"@).element(item_num).member("image"@).member("tile"@)
}

/// The kind of a tile: the name of the last member of its description, or
/// `"program"` where the description is not an object.
pub open spec fn tile_type_of(tile_data: Json) -> Option<Seq<char>> {
    match tile_data.members() {
        Some(members) => if members.len() > 0 {
            Some(members.last().0@)
        } else {
            None
        },
        None => Some("program"@),
    }
}

/// The address of the image of a tile.
pub open spec fn tile_url_of(tile_data: Json) -> Option<Seq<char>> {
    match tile_type_of(tile_data) {
        Some(tile_type) => tile_data.member(tile_type).member("default"@).member("url"@).text(),
        None => None,
    }
}

/// The list of set containers of a home document.
pub open spec fn containers_of(document: Json) -> Json {
    document.member("data"@).member("StandardCollection"@).member("containers"@)
}

/// The number of sets that a home document lists.
pub open spec fn num_of_sets_of(document: Json) -> nat {
    match containers_of(document).array_len() {
        Some(count) => count,
        None => 0,
    }
}

/// The description of set `set_num` in a home document.
pub open spec fn set_entry_of(document: Json, set_num: nat) -> Json {
    containers_of(document).element(set_num).member("set"@)
}

/// Whether the document can be indexed: `usize` has room for a full band of
/// rows past the last set, and for a full window past the last item of each set.
pub open spec fn sets_fit(document: Json) -> bool {
    &&& num_of_sets_of(document) + NUM_ROWS <= usize::MAX
    &&& forall|set_num: nat|
        set_num < num_of_sets_of(document) ==> #[trigger] item_count_of(
            set_entry_of(document, set_num),
        ) + ROW_STRIDE <= usize::MAX
}

/// The address of the image of tile `tile` of item `item_num` of the set
/// described by `entry`, or why there is none.
pub open spec fn home_tile_url_of(entry: Json, item_num: nat, tile: nat) -> Result<
    Seq<char>,
    TileError,
> {
    match tiles_of(entry, item_num).members() {
        Some(tiles) => if tile < tiles.len() {
            match tile_url_of(tiles[tile as int].1) {
                Some(url) => Ok(url),
                None => Err(TileError::NoUrl),
            }
        } else {
            Err(TileError::NoTile)
        },
        None => Err(TileError::NoTile),
    }
}

/// Why no address could be given for the image of an item.
#[derive(Clone, Copy, Debug, PartialEq, Eq, Structural)]
pub enum TileError {
    /// The item has no tiles, or no tile at the position asked for.
    NoTile,
    /// The tile names no address.
    NoUrl,
}

/// One set of the catalogue.
pub struct SetData<'a> {
    entry: Option<&'a Json>,
}

impl<'a> SetData<'a> {
    #[verifier::type_invariant]
    spec fn fits(self) -> bool {
        item_count_of(or_null(self.entry)) + ROW_STRIDE <= usize::MAX
    }

    /// The description of the set in the home document.
    pub closed spec fn entry(self) -> Json {
        or_null(self.entry)
    }

    /// The title of the set; `"Title not found"` where the document gives none.
    pub fn get_title(&self) -> (title: &'a str)
        ensures
            title@ == title_of(self.entry()),
    {
        let node = child(self.entry, "text");
        let node = child(node, "title");
        let node = child(node, "full");
        let node = child(node, "set");
        let node = child(node, "default");
        let node = child(node, "content");
        let text = match node {
            Some(value) => value.as_str(),
            None => None,
        };
        match text {
            Some(title) => title,
            None => "Title not found",
        }
    }

    /// The number of items of the set; 0 where the document lists none.
    pub fn get_item_count(&self) -> (count: usize)
        ensures
            count == item_count_of(self.entry()),
            count + ROW_STRIDE <= usize::MAX,
    {
        proof {
            use_type_invariant(self);
        }
        let len = match child(self.entry, "items") {
            Some(value) => value.len(),
            None => None,
        };
        match len {
            Some(count) => count,
            None => 0,
        }
    }
}

impl<'a> SetData<'a> {
    /// The aspect-ratio keys of the tiles of item `item_num`, in document
    /// order; `None` where the item has no tiles.
    pub fn get_home_tile_keys(&self, item_num: usize) -> (keys: Option<Vec<&'a str>>)
        ensures
            match keys {
                Some(keys) => {
                    &&& tiles_of(self.entry(), item_num as nat).members() matches Some(tiles)
                    &&& keys@.len() == tiles.len()
                    &&& forall|i: int| 0 <= i < keys@.len() ==> keys@[i]@ == (#[trigger] tiles[i]).0@
                },
                None => tiles_of(self.entry(), item_num as nat).members() is None,
            },
    {
        let node = child(self.entry, "items");
        let node = item(node, item_num);
        let node = child(node, "image");
        let node = child(node, "tile");
        match node {
            Some(Json::Object(tiles)) => {
                let mut keys: Vec<&'a str> = Vec::new();
                let mut i: usize = 0;
                while i < tiles.len()
                    invariant
                        i <= tiles.len(),
                        keys@.len() == i,
                        forall|j: int| 0 <= j < i ==> keys@[j]@ == (#[trigger] tiles@[j]).0@,
                    decreases tiles.len() - i,
                {
                    keys.push(tiles[i].0.as_str());
                    i += 1;
                }
                Some(keys)
            },
            _ => None,
        }
    }

    /// The address of the image of the tile at position `tile` among the
    /// tiles of item `item_num`.
    pub fn get_home_tile_url(&self, item_num: usize, tile: usize) -> (url: Result<&'a str, TileError>)
        ensures
            match url {
                Ok(url) => home_tile_url_of(self.entry(), item_num as nat, tile as nat) == Ok::<
                    Seq<char>,
                    TileError,
                >(url@),
                Err(error) => home_tile_url_of(self.entry(), item_num as nat, tile as nat) == Err::<
                    Seq<char>,
                    TileError,
                >(error),
            },
    {
        let node = child(self.entry, "items");
        let node = item(node, item_num);
        let node = child(node, "image");
        let node = child(node, "tile");
        let tiles = match node {
            Some(Json::Object(tiles)) => tiles,
            _ => {
                return Err(TileError::NoTile);
            },
        };
        if tile >= tiles.len() {
            return Err(TileError::NoTile);
        }
        let tile_data = &tiles[tile].1;
        let tile_type: &str = match tile_data {
            Json::Object(members) => {
                if members.len() == 0 {
                    return Err(TileError::NoUrl);
                }
                members[members.len() - 1].0.as_str()
            },
            _ => "program",
        };
        let node = tile_data.get(tile_type);
        let node = child(node, "default");
        let node = child(node, "url");
        let text = match node {
            Some(value) => value.as_str(),
            None => None,
        };
        match text {
            Some(url) => Ok(url),
            None => Err(TileError::NoUrl),
        }
    }
}

/// Why a home document was not taken.
#[derive(Clone, Copy, Debug, PartialEq, Eq, Structural)]
pub enum HomeDataError {
    /// The document lists more sets than can be indexed together with a band
    /// of rows.
    TooManySets,
    /// A set lists more items than can be indexed together with a window.
    SetTooLong,
}

/// The catalogue: the home document, once it is loaded.
pub struct Api {
    json_data: Option<Json>,
}

impl Api {
    /// The home document, once it is loaded.
    pub closed spec fn document(&self) -> Option<Json> {
        self.json_data
    }

    /// A catalogue holds no document that cannot be indexed.
    #[verifier::type_invariant]
    pub open spec fn fits(&self) -> bool {
        match self.document() {
            Some(document) => sets_fit(document),
            None => true,
        }
    }

    /// The length of the list of sets, where the document is loaded and holds one.
    pub open spec fn listed_sets(&self) -> Option<nat> {
        match self.document() {
            Some(document) => containers_of(document).array_len(),
            None => None,
        }
    }

    /// The number of sets of the catalogue; none before the document is loaded.
    pub open spec fn num_of_sets(&self) -> nat {
        match self.listed_sets() {
            Some(count) => count,
            None => 0,
        }
    }

    /// The description of set `set_num`.
    pub open spec fn set_entry(&self, set_num: nat) -> Json {
        match self.document() {
            Some(document) => set_entry_of(document, set_num),
            None => Json::Null,
        }
    }

    /// An empty catalogue, to be filled by `load_home_data`.
    pub fn new() -> (api: Self)
        ensures
            api.document() is None,
    {
        Api { json_data: None }
    }

    /// Takes `document` as the home document, replacing an earlier one.
    ///
    /// A document with a set too long to be indexed is refused, and the
    /// catalogue stays as it was.
    pub fn load_home_data(&mut self, document: Json) -> (taken: Result<(), HomeDataError>)
        ensures
            taken is Ok <==> sets_fit(document),
            taken is Ok ==> final(self).document() == Some(document),
            taken is Err ==> final(self).document() == old(self).document(),
            taken == Err::<(), HomeDataError>(HomeDataError::TooManySets) <==> num_of_sets_of(
                document,
            ) + NUM_ROWS > usize::MAX,
    {
        let containers = child(child(child(Some(&document), "data"), "StandardCollection"), "containers");
        let count: usize = match containers {
            Some(value) => match value.len() {
                Some(count) => count,
                None => 0,
            },
            None => 0,
        };
        if count > usize::MAX - NUM_ROWS {
            return Err(HomeDataError::TooManySets);
        }
        let mut set_num: usize = 0;
        while set_num < count
            invariant
                set_num <= count,
                count + NUM_ROWS <= usize::MAX,
                count == num_of_sets_of(document),
                or_null(containers) == containers_of(document),
                forall|n: nat|
                    n < set_num ==> #[trigger] item_count_of(set_entry_of(document, n))
                        + ROW_STRIDE <= usize::MAX,
            decreases count - set_num,
        {
            let entry = child(item(containers, set_num), "set");
            let items: usize = match child(entry, "items") {
                Some(value) => match value.len() {
                    Some(items) => items,
                    None => 0,
                },
                None => 0,
            };
            assert(items == item_count_of(set_entry_of(document, set_num as nat)));
            if items > usize::MAX - ROW_STRIDE {
                return Err(HomeDataError::SetTooLong);
            }
            set_num += 1;
        }
        self.json_data = Some(document);
        Ok(())
    }

    /// The set `set_num`, if the catalogue lists it.
    pub fn get_set(&self, set_num: usize) -> (set: Option<SetData<'_>>)
        ensures
            set is Some <==> set_num < self.num_of_sets(),
            set matches Some(set) ==> set.entry() == self.set_entry(set_num as nat),
    {
        proof {
            use_type_invariant(self);
        }
        match &self.json_data {
            Some(document) => {
                let containers = child(child(child(Some(document), "data"), "StandardCollection"), "containers");
                let count: usize = match containers {
                    Some(value) => match value.len() {
                        Some(count) => count,
                        None => 0,
                    },
                    None => 0,
                };
                if set_num < count {
                    let entry = child(item(containers, set_num), "set");
                    Some(SetData { entry })
                } else {
                    None
                }
            },
            None => None,
        }
    }

    /// The number of sets of the catalogue.
    pub fn row_count(&self) -> (count: usize)
        ensures
            count == self.num_of_sets(),
            count + NUM_ROWS <= usize::MAX,
    {
        proof {
            use_type_invariant(self);
        }
        match self.get_num_of_sets() {
            Some(count) => count,
            None => 0,
        }
    }

    /// The number of sets that the home document lists; `None` before it is
    /// loaded and where it holds no list of sets.
    pub fn get_num_of_sets(&self) -> (count: Option<usize>)
        ensures
            match count {
                Some(count) => self.listed_sets() == Some(count as nat),
                None => self.listed_sets() is None,
            },
    {
        match &self.json_data {
            Some(document) => {
                let containers = child(child(child(Some(document), "data"), "StandardCollection"), "containers");
                match containers {
                    Some(value) => value.len(),
                    None => None,
                }
            },
            None => None,
        }
    }
}

} // verus!
