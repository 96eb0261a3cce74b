use vstd::prelude::*;

use crate::client::{public_url_of, KrakenClient};

verus! {

/// The public endpoint that describes assets.
pub const ASSETS_PATH: &'static str = "Assets";

/// The private endpoint that reports the account's balances.
pub const BALANCE_PATH: &'static str = "Balance";

/// The parts separated by commas, as `[&str]::join(",")` writes them.
pub open spec fn comma_joined(parts: Seq<Seq<char>>) -> Seq<char>
    decreases parts.len(),
{
    if parts.len() == 0 {
        seq![]
    } else if parts.len() == 1 {
        parts[0]
    } else {
        comma_joined(parts.drop_last()) + seq![','] + parts.last()
    }
}

/// The text of each asset name.
pub open spec fn names_of(assets: Seq<&str>) -> Seq<Seq<char>> {
    assets.map_values(|a: &str| a@)
}

/// Joins asset names with commas, for a query string.
pub fn join_assets(assets: &[&str]) -> (r: String)
    ensures
        r@ == comma_joined(names_of(assets@)),
{
    let mut joined = String::new();
    let n = assets.len();
    for i in 0..n
        invariant
            n == assets@.len(),
            joined@ == comma_joined(names_of(assets@.subrange(0, i as int))),
    {
        let ghost before = names_of(assets@.subrange(0, i as int));
        let ghost after = names_of(assets@.subrange(0, i + 1));
        assert(after.drop_last() =~= before);
        if i > 0 {
            joined.push(',');
        }
        joined.append(assets[i]);
        assert(joined@ =~= comma_joined(after));
    }
    assert(assets@.subrange(0, n as int) =~= assets@);
    joined
}

impl KrakenClient {
    /// The URL that describes every asset.
    pub fn all_asset_info_url(&self) -> (r: String)
        ensures
            r@ == public_url_of(self.base_url@, self.api_version, ASSETS_PATH@),
    {
        self.public_url(ASSETS_PATH)
    }

    /// The URL that describes the named assets.
    pub fn asset_info_url(&self, assets: &[&str]) -> (r: String)
        ensures
            r@ == public_url_of(
                self.base_url@,
                self.api_version,
                ASSETS_PATH@ + "?asset="@ + comma_joined(names_of(assets@)),
            ),
    {
        let mut query = String::from_str(ASSETS_PATH);
        query.append("?asset=");
        query.append(join_assets(assets).as_str());
        self.public_url(query.as_str())
    }

    /// The URL that describes the assets of one class.
    pub fn asset_class_info_url(&self, class: &str) -> (r: String)
        ensures
            r@ == public_url_of(self.base_url@, self.api_version, ASSETS_PATH@ + "?aclass="@ + class@),
    {
        let mut query = String::from_str(ASSETS_PATH);
        query.append("?aclass=");
        query.append(class);
        self.public_url(query.as_str())
    }
}

} // verus!
