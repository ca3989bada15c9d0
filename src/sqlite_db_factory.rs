//! Where the per-contract state databases live on disk.

use vstd::prelude::*;
use vstd::string::{StrSliceExecFns, StringExecFns};

verus! {

/// The hex digits, lowercase.
pub open spec fn hex_chars() -> Seq<char> {
    seq!['0', '1', '2', '3', '4', '5', '6', '7', '8', '9', 'a', 'b', 'c', 'd', 'e', 'f']
}

/// Two lowercase hex digits per byte, most significant first.
pub open spec fn hex_of(b: Seq<u8>) -> Seq<char>
    decreases b.len(),
{
    if b.len() == 0 {
        Seq::empty()
    } else {
        seq![hex_chars()[(b[0] / 16) as int], hex_chars()[(b[0] % 16) as int]] + hex_of(b.drop_first())
    }
}

pub proof fn lemma_hex_of(b: Seq<u8>)
    ensures
        hex_of(b).len() == 2 * b.len(),
        forall|i: int| 0 <= i < hex_of(b).len() ==> #[trigger] hex_of(b)[i] != '/',
    decreases b.len(),
{
    if b.len() > 0 {
        lemma_hex_of(b.drop_first());
        let h = hex_of(b);
        let t = hex_of(b.drop_first());
        assert forall|i: int| 0 <= i < h.len() implies #[trigger] h[i] != '/' by {
            if i >= 2 {
                assert(h[i] == t[i - 2]);
            }
        }
    }
}

/// Relies on tari_utilities::hex::to_hex, which writes each byte with
/// `{:02x}`: two lowercase hex digits per byte.
#[verifier::external_body]
fn to_hex(bytes: &[u8]) -> (r: String)
    ensures
        r@ == hex_of(bytes@),
{
    tari_utilities::hex::to_hex(bytes)
}

/// Path `dir` with the relative component `part` appended: a separator is
/// added unless `dir` is empty or already ends with one.
pub open spec fn joined(dir: Seq<char>, part: Seq<char>) -> Seq<char> {
    if dir.len() == 0 {
        part
    } else if dir.last() == '/' {
        dir + part
    } else {
        dir + seq!['/'] + part
    }
}

/// The database of the contract whose id has hex form `contract_hex`:
/// `<data_dir>/asset_data/<contract_hex>/dan_storage.sqlite`.
pub open spec fn database_url(data_dir: Seq<char>, contract_hex: Seq<char>) -> Seq<char> {
    joined(joined(joined(data_dir, "asset_data"@), contract_hex), "dan_storage.sqlite"@)
}

/// Locates the databases of each contract under a data directory.
#[derive(Clone, Debug)]
pub struct SqliteDbFactory {
    pub data_dir: String,
}

impl SqliteDbFactory {
    pub fn new(data_dir: String) -> (r: SqliteDbFactory)
        ensures
            r.data_dir@ == data_dir@,
    {
        SqliteDbFactory { data_dir }
    }

    /// The location of the state database of contract `contract_id`.
    pub fn database_url_for(&self, contract_id: &[u8; 32]) -> (r: String)
        ensures
            r@ == database_url(self.data_dir@, hex_of(contract_id@)),
    {
        let hex = to_hex(contract_id.as_slice());
        let dir = self.data_dir.as_str();
        let n = dir.unicode_len();
        let mut url = String::from_str(dir);
        if n > 0 && dir.get_char(n - 1) != '/' {
            url.append("/");
        }
        url.append("asset_data");
        url.append("/");
        url.append(hex.as_str());
        url.append("/");
        url.append("dan_storage.sqlite");
        proof {
            reveal_strlit("/");
            reveal_strlit("asset_data");
            reveal_strlit("dan_storage.sqlite");
            let d = self.data_dir@;
            let a = joined(d, "asset_data"@);
            assert(a.len() > 0 && a.last() == 'a');
            let h = hex_of(contract_id@);
            lemma_hex_of(contract_id@);
            let b = joined(a, h);
            assert(b == a + seq!['/'] + h);
            assert(b.last() == h[h.len() - 1]);
            assert(url@ =~= database_url(d, hex_of(contract_id@)));
        }
        url
    }
}

} // verus!
