use vstd::prelude::*;

verus! {

/// The sector an instrument belongs to.
#[derive(Debug, Clone, Copy, PartialEq, Eq, Structural, Hash)]
pub enum StockType {
    Tech,
    Food,
    Healthcare,
}

/// One instrument: its name, its current value and its value before the last tick.
#[derive(Debug, Clone)]
pub struct Stock {
    pub name: String,
    pub v: i32,
    pub prev_v: i32,
}

pub open spec fn is_tech(n: Seq<char>) -> bool {
    n == "AAPL"@ || n == "AMZN"@ || n == "GOOGL"@ || n == "MSFT"@ || n == "TSLA"@
        || n == "FB"@ || n == "CRM"@ || n == "INTC"@ || n == "NVDA"@ || n == "WORK"@
        || n == "FSLY"@ || n == "CRWD"@ || n == "DOCU"@
}

pub open spec fn is_food(n: Seq<char>) -> bool {
    n == "KO"@ || n == "PEP"@ || n == "MCD"@ || n == "SBUX"@ || n == "GIS"@ || n == "HSY"@
        || n == "KR"@ || n == "CPB"@ || n == "WMT"@ || n == "TGT"@ || n == "COST"@
        || n == "PG"@ || n == "UN"@ || n == "SYY"@ || n == "FLO"@ || n == "WBA"@
}

pub open spec fn is_healthcare(n: Seq<char>) -> bool {
    n == "MDLZ"@ || n == "MRK"@ || n == "AMGN"@ || n == "UNH"@ || n == "HCA"@
        || n == "ANTM"@ || n == "DHR"@ || n == "ABT"@ || n == "TMO"@ || n == "REGN"@
        || n == "ILMN"@ || n == "MDT"@ || n == "ZBH"@ || n == "VRTX"@ || n == "IDXX"@
        || n == "DGX"@
}

/// The static name-to-sector table; `None` for a name that it does not list.
pub open spec fn sector_of(n: Seq<char>) -> Option<StockType> {
    if is_tech(n) {
        Some(StockType::Tech)
    } else if is_food(n) {
        Some(StockType::Food)
    } else if is_healthcare(n) {
        Some(StockType::Healthcare)
    } else {
        None
    }
}

fn name_is(name: &String, lit: &str) -> (r: bool)
    ensures
        r == (name@ == lit@),
{
    *name == lit.to_owned()
}

fn any_name_is(name: &String, table: &[&str]) -> (r: bool)
    ensures
        r == exists|i: int| 0 <= i < table@.len() && name@ == table@[i]@,
{
    let mut k: usize = 0;
    while k < table.len()
        invariant
            0 <= k <= table@.len(),
            forall|i: int| 0 <= i < k ==> name@ != table@[i]@,
        decreases table@.len() - k,
    {
        if name_is(name, table[k]) {
            return true;
        }
        k += 1;
    }
    false
}

impl Stock {
    /// Looks the instrument's name up in the sector table.
    pub fn classify(&self) -> (r: Option<StockType>)
        ensures
            r == sector_of(self.name@),
    {
        let tech: [&str; 13] = [
            "AAPL", "AMZN", "GOOGL", "MSFT", "TSLA", "FB", "CRM", "INTC", "NVDA", "WORK", "FSLY",
            "CRWD", "DOCU",
        ];
        let food: [&str; 16] = [
            "KO", "PEP", "MCD", "SBUX", "GIS", "HSY", "KR", "CPB", "WMT", "TGT", "COST", "PG", "UN",
            "SYY", "FLO", "WBA",
        ];
        let healthcare: [&str; 16] = [
            "MDLZ", "MRK", "AMGN", "UNH", "HCA", "ANTM", "DHR", "ABT", "TMO", "REGN", "ILMN", "MDT",
            "ZBH", "VRTX", "IDXX", "DGX",
        ];
        if any_name_is(&self.name, &tech) {
            Some(StockType::Tech)
        } else if any_name_is(&self.name, &food) {
            Some(StockType::Food)
        } else if any_name_is(&self.name, &healthcare) {
            Some(StockType::Healthcare)
        } else {
            None
        }
    }

    /// The instrument's sector; the name must be one that the table lists.
    pub fn stock_type(&self) -> (r: StockType)
        requires
            sector_of(self.name@) is Some,
        ensures
            sector_of(self.name@) == Some(r),
    {
        match self.classify() {
            Some(t) => t,
            None => StockType::Tech,
        }
    }
}

/// A configuration error: an instrument whose name the sector table does not list.
#[derive(Debug, Clone)]
pub struct ConfigError {
    pub name: String,
}

/// Every instrument of the registry has a sector.
pub open spec fn all_classified(stocks: Seq<Stock>) -> bool {
    forall|i: int| 0 <= i < stocks.len() ==> (#[trigger] sector_of(stocks[i].name@)) is Some
}

/// Checks the registry before any tick: `Ok` when every name is in the sector table,
/// else an error that names the first instrument that is not.
pub fn check_registry(stocks: &Vec<Stock>) -> (r: Result<(), ConfigError>)
    ensures
        r is Ok <==> all_classified(stocks@),
        r matches Err(e) ==> exists|i: int|
            0 <= i < stocks@.len() && sector_of(stocks@[i].name@) is None && e.name@
                == stocks@[i].name@ && all_classified(stocks@.take(i)),
{
    let mut k: usize = 0;
    while k < stocks.len()
        invariant
            0 <= k <= stocks@.len(),
            all_classified(stocks@.take(k as int)),
        decreases stocks@.len() - k,
    {
        if stocks[k].classify().is_none() {
            return Err(ConfigError { name: stocks[k].name.clone() });
        }
        assert(stocks@.take(k + 1) =~= stocks@.take(k as int).push(stocks@[k as int]));
        k += 1;
    }
    assert(stocks@.take(k as int) =~= stocks@);
    Ok(())
}

} // verus!
