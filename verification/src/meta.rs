//! Exchange catalogues and the coin-name tables derived from them.

use ethers::abi::ethereum_types::H128;
use rust_decimal::Decimal;
use std::collections::HashMap;
use vstd::prelude::*;

verus! {

/// `ethereum_types::H128`, a 16-byte identifier. The library carries it
/// through without looking inside.
#[verifier::external_type_specification]
#[verifier::external_body]
pub struct ExH128(H128);

/// `rust_decimal::Decimal`, a fixed-point number. The library carries it
/// through without looking inside.
#[verifier::external_type_specification]
#[verifier::external_body]
pub struct ExDecimal(Decimal);

/// `H128` is `Copy`: its `clone` hands back the same sixteen bytes.
pub assume_specification[ <H128 as Clone>::clone ](id: &H128) -> (copy: H128)
    ensures
        copy == *id,
;

/// `Decimal` is `Copy`: its `clone` hands back the same number.
pub assume_specification[ <Decimal as Clone>::clone ](number: &Decimal) -> (copy: Decimal)
    ensures
        copy == *number,
;

/// The catalogue of perpetuals: the assets, and the margin tables they
/// refer to.
#[derive(Debug, Clone)]
pub struct Meta {
    pub universe: Vec<AssetMeta>,
    pub margin_tables: Vec<(u32, MarginTableData)>,
}

/// The spot catalogue: the pairs, and the tokens they are made of.
#[derive(Debug, Clone)]
pub struct SpotMeta {
    pub universe: Vec<SpotAssetMeta>,
    pub tokens: Vec<TokenInfo>,
}

/// One element of the answer that carries the spot catalogue together with
/// the state of its pairs.
#[derive(Debug, Clone)]
pub enum SpotMetaAndAssetCtxs {
    SpotMeta(SpotMeta),
    Context(Vec<SpotAssetContext>),
}

/// The state of one spot pair.
#[derive(Debug, Clone)]
pub struct SpotAssetContext {
    pub day_ntl_vlm: String,
    pub mark_px: String,
    pub mid_px: Option<String>,
    pub prev_day_px: String,
    pub circulating_supply: String,
    pub coin: String,
}

/// One perpetual.
#[derive(Debug, Clone)]
pub struct AssetMeta {
    pub name: String,
    pub sz_decimals: u32,
    pub margin_table_id: u32,
    pub max_leverage: u32,
    pub only_isolated: Option<bool>,
    pub is_delisted: Option<bool>,
    pub margin_mode: Option<MarginMode>,
}

/// How margin may be held on an asset.
#[derive(Debug, Clone, PartialEq, Eq, Structural)]
pub enum MarginMode {
    StrictIsolated,
    NoCross,
}

/// A margin table: the leverage allowed, by size of position.
#[derive(Debug, Clone)]
pub struct MarginTableData {
    pub description: String,
    pub margin_tiers: Vec<MarginTier>,
}

/// One tier of a margin table.
#[derive(Debug, Clone)]
pub struct MarginTier {
    pub lower_bound: Decimal,
    pub max_leverage: u32,
}

/// One spot pair: its two tokens, base first, by their indices.
#[derive(Debug, Clone)]
pub struct SpotAssetMeta {
    pub tokens: [usize; 2],
    pub name: String,
    pub index: usize,
    pub is_canonical: bool,
}

/// One token.
#[derive(Debug, Clone)]
pub struct TokenInfo {
    pub name: String,
    pub sz_decimals: u8,
    pub wei_decimals: u8,
    pub index: usize,
    pub token_id: H128,
    pub is_canonical: bool,
}

/// The catalogue of one builder-deployed perp dex.
#[derive(Debug, Clone)]
pub struct PerpDexMeta {
    pub universe: Vec<AssetMeta>,
}

/// The asset ids that a name table records, by coin name.
pub uninterp spec fn asset_ids(table: HashMap<String, u32>) -> Map<Seq<char>, u32>;

/// `HashMap::insert` on a table keyed by `String`: afterwards the table
/// records `id` under the characters of `name` and is otherwise as before.
/// A `String` is hashed and compared by its characters, so an entry under
/// the same characters is overwritten.
#[verifier::external_body]
fn record_asset(table: &mut HashMap<String, u32>, name: String, id: u32)
    ensures
        asset_ids(*final(table)) == asset_ids(*old(table)).insert(name@, id),
{
    table.insert(name, id);
}

/// First id of the range set aside for builder-deployed perpetuals.
pub const PERP_DEX_BASE: u32 = 100000;

/// Number of ids set aside for each perp dex.
pub const PERP_DEX_STRIDE: u32 = 10000;

/// Asset id of the entry at `index_in_meta` of the perp dex `perp_dex_index`.
pub open spec fn perp_asset_id(perp_dex_index: int, index_in_meta: int) -> int {
    PERP_DEX_BASE + perp_dex_index * PERP_DEX_STRIDE + index_in_meta
}

/// `base` extended by the first `n` entries of `universe`, taken in order,
/// so that a later entry replaces an earlier one of the same name.
pub open spec fn with_perps(
    base: Map<Seq<char>, u32>,
    universe: Seq<AssetMeta>,
    perp_dex_index: int,
    n: int,
) -> Map<Seq<char>, u32>
    decreases n,
{
    if n <= 0 {
        base
    } else {
        with_perps(base, universe, perp_dex_index, n - 1).insert(
            universe[n - 1].name@,
            perp_asset_id(perp_dex_index, n - 1) as u32,
        )
    }
}

/// First id of the range set aside for spot pairs.
pub const SPOT_BASE: u32 = 10000;

/// Asset id of the spot pair listed under `index`.
pub open spec fn spot_asset_id(index: int) -> int {
    SPOT_BASE + index
}

/// The token names listed under each token index by the first `n` entries
/// of `tokens`; a later entry replaces an earlier one of the same index.
pub open spec fn token_names(tokens: Seq<TokenInfo>, n: int) -> Map<usize, Seq<char>>
    decreases n,
{
    if n <= 0 {
        Map::empty()
    } else {
        token_names(tokens, n - 1).insert(tokens[n - 1].index, tokens[n - 1].name@)
    }
}

/// The display name of a pair: base token, a slash, quote token.
pub open spec fn pair_name(base: Seq<char>, quote: Seq<char>) -> Seq<char> {
    base + seq!['/'] + quote
}

/// `table` extended by one spot pair. A pair whose two tokens are both
/// listed is recorded twice under the same id, once under its pair name and
/// once under its own name; any other pair leaves the table as it is.
pub open spec fn with_spot_pair(
    table: Map<Seq<char>, u32>,
    names: Map<usize, Seq<char>>,
    asset: SpotAssetMeta,
) -> Map<Seq<char>, u32> {
    if names.contains_key(asset.tokens[0]) && names.contains_key(asset.tokens[1]) {
        table.insert(
            pair_name(names[asset.tokens[0]], names[asset.tokens[1]]),
            spot_asset_id(asset.index as int) as u32,
        ).insert(asset.name@, spot_asset_id(asset.index as int) as u32)
    } else {
        table
    }
}

/// `base` extended by the first `n` pairs of `universe`, taken in order.
pub open spec fn with_spot_pairs(
    base: Map<Seq<char>, u32>,
    names: Map<usize, Seq<char>>,
    universe: Seq<SpotAssetMeta>,
    n: int,
) -> Map<Seq<char>, u32>
    decreases n,
{
    if n <= 0 {
        base
    } else {
        with_spot_pair(with_spot_pairs(base, names, universe, n - 1), names, universe[n - 1])
    }
}

impl SpotMeta {
    /// Whether the id of every listed pair fits in 32 bits.
    pub open spec fn ids_fit(&self) -> bool {
        forall|i: int|
            0 <= i < self.universe.len() ==> spot_asset_id(
                (#[trigger] self.universe[i]).index as int,
            ) <= u32::MAX
    }

    /// Extends `coin_to_asset` with the spot pairs of this catalogue. The
    /// pair listed under `index` gets the id `10000 + index`, recorded under
    /// the pair name `BASE/QUOTE` and under the pair's own name. A pair that
    /// names a token the catalogue does not list is left out altogether.
    pub fn add_pair_and_name_to_index_map(
        &self,
        mut coin_to_asset: HashMap<String, u32>,
    ) -> (out: HashMap<String, u32>)
        requires
            self.ids_fit(),
        ensures
            asset_ids(out) == with_spot_pairs(
                asset_ids(coin_to_asset),
                token_names(self.tokens@, self.tokens.len() as int),
                self.universe@,
                self.universe.len() as int,
            ),
    {
        broadcast use vstd::std_specs::hash::group_hash_axioms;

        let mut index_to_name: HashMap<usize, &str> = HashMap::new();
        let token_count: usize = self.tokens.len();
        let mut t: usize = 0;
        while t < token_count
            invariant
                token_count == self.tokens.len(),
                t <= token_count,
                forall|k: usize|
                    index_to_name@.contains_key(k) <==> token_names(
                        self.tokens@,
                        t as int,
                    ).contains_key(k),
                forall|k: usize|
                    index_to_name@.contains_key(k) ==> (#[trigger] index_to_name@[k])@
                        == token_names(self.tokens@, t as int)[k],
            decreases token_count - t,
        {
            index_to_name.insert(self.tokens[t].index, self.tokens[t].name.as_str());
            t += 1;
        }
        let ghost names = token_names(self.tokens@, self.tokens.len() as int);
        let ghost base = asset_ids(coin_to_asset);
        let n: usize = self.universe.len();
        let mut i: usize = 0;
        while i < n
            invariant
                n == self.universe.len(),
                i <= n,
                self.ids_fit(),
                names == token_names(self.tokens@, self.tokens.len() as int),
                forall|k: usize| index_to_name@.contains_key(k) <==> names.contains_key(k),
                forall|k: usize|
                    index_to_name@.contains_key(k) ==> (#[trigger] index_to_name@[k])@
                        == names[k],
                asset_ids(coin_to_asset) == with_spot_pairs(base, names, self.universe@, i as int),
            decreases n - i,
        {
            let asset: &SpotAssetMeta = &self.universe[i];
            let spot_ind: u32 = SPOT_BASE + asset.index as u32;
            let first: Option<&&str> = index_to_name.get(&asset.tokens[0]);
            let second: Option<&&str> = index_to_name.get(&asset.tokens[1]);
            match (first, second) {
                (Some(token_1_name), Some(token_2_name)) => {
                    proof {
                        reveal_strlit("/");
                        assert("/"@ =~= seq!['/']);
                    }
                    let pair: String = String::from_str(*token_1_name).concat("/").concat(
                        *token_2_name,
                    );
                    record_asset(&mut coin_to_asset, pair, spot_ind);
                    record_asset(&mut coin_to_asset, asset.name.clone(), spot_ind);
                },
                _ => {},
            }
            i += 1;
        }
        coin_to_asset
    }
}

/// What the extended table holds under `name`. The name is recorded if the
/// base table records it or one of the first `n` entries carries it; it
/// then stands for the id of the last such entry, or for the base table's
/// id where no entry carries it.
pub proof fn lemma_with_perps_lookup(
    base: Map<Seq<char>, u32>,
    universe: Seq<AssetMeta>,
    perp_dex_index: int,
    n: int,
    name: Seq<char>,
)
    requires
        0 <= n <= universe.len(),
    ensures
        with_perps(base, universe, perp_dex_index, n).contains_key(name) <==> (
        base.contains_key(name) || exists|i: int|
            0 <= i < n && (#[trigger] universe[i]).name@ == name),
        forall|i: int|
            0 <= i < n && (#[trigger] universe[i]).name@ == name && (forall|j: int|
                i < j < n ==> (#[trigger] universe[j]).name@ != name) ==> with_perps(
                base,
                universe,
                perp_dex_index,
                n,
            )[name] == perp_asset_id(perp_dex_index, i) as u32,
        (forall|i: int| 0 <= i < n ==> (#[trigger] universe[i]).name@ != name) ==> with_perps(
            base,
            universe,
            perp_dex_index,
            n,
        )[name] == base[name],
    decreases n,
{
    if n > 0 {
        lemma_with_perps_lookup(base, universe, perp_dex_index, n - 1, name);
        let before = with_perps(base, universe, perp_dex_index, n - 1);
        let after = with_perps(base, universe, perp_dex_index, n);
        if universe[n - 1].name@ == name {
            assert(after[name] == perp_asset_id(perp_dex_index, n - 1) as u32);
        } else {
            assert(after.contains_key(name) == before.contains_key(name));
            assert(after.contains_key(name) ==> after[name] == before[name]);
            assert forall|i: int|
                0 <= i < n && (#[trigger] universe[i]).name@ == name && (forall|j: int|
                    i < j < n ==> (#[trigger] universe[j]).name@ != name) implies after[name]
                == perp_asset_id(perp_dex_index, i) as u32 by {
                assert(i < n - 1);
                assert(forall|j: int| i < j < n - 1 ==> (#[trigger] universe[j]).name@ != name);
            }
        }
    }
}

impl PerpDexMeta {
    /// Whether every id that this dex needs under `perp_dex_index` fits in
    /// 32 bits.
    pub open spec fn ids_fit(&self, perp_dex_index: int) -> bool {
        self.universe.len() > 0 ==> perp_asset_id(perp_dex_index, self.universe.len() - 1)
            <= u32::MAX
    }

    /// Extends `coin_to_asset` with the perpetuals of this dex. The entry at
    /// position `i` of the universe gets the id
    /// `100000 + perp_dex_index * 10000 + i`.
    pub fn add_perp_to_asset_map(
        &self,
        perp_dex_index: usize,
        mut coin_to_asset: HashMap<String, u32>,
    ) -> (out: HashMap<String, u32>)
        requires
            self.ids_fit(perp_dex_index as int),
        ensures
            asset_ids(out) == with_perps(
                asset_ids(coin_to_asset),
                self.universe@,
                perp_dex_index as int,
                self.universe.len() as int,
            ),
    {
        let ghost base = asset_ids(coin_to_asset);
        let n: usize = self.universe.len();
        let mut i: usize = 0;
        while i < n
            invariant
                n == self.universe.len(),
                i <= n,
                self.ids_fit(perp_dex_index as int),
                asset_ids(coin_to_asset) == with_perps(
                    base,
                    self.universe@,
                    perp_dex_index as int,
                    i as int,
                ),
            decreases n - i,
        {
            assert(perp_asset_id(perp_dex_index as int, i as int) <= perp_asset_id(
                perp_dex_index as int,
                n - 1,
            ));
            let asset_id: u32 = PERP_DEX_BASE + (perp_dex_index as u32 * PERP_DEX_STRIDE)
                + i as u32;
            record_asset(&mut coin_to_asset, self.universe[i].name.clone(), asset_id);
            i += 1;
        }
        coin_to_asset
    }
}

} // verus!
