//! Configuration of a CSV history: which columns hold what, and how the time
//! column is written.
use vstd::prelude::*;
use vstd::string::StrSliceExecFns;

verus! {

/// How the time column is written.
#[derive(Clone, Copy, Debug)]
pub enum CsvTimeType {
    Unknown,
    /// Seconds since the Unix epoch.
    Second,
    /// Milliseconds since the Unix epoch.
    Millsecond,
    /// A date, in the given format.
    Date(&'static str),
    /// A date and time, in the given format.
    Datetime(&'static str),
}

impl Default for CsvDataSourceBuilder {
    fn default() -> (r: CsvDataSourceBuilder)
        ensures
            r.time_type is Unknown,
            r.time_field@ == Seq::<char>::empty(),
    {
        CsvDataSourceBuilder::new()
    }
}

/// Why a configuration or a header cannot be used.
#[derive(Clone, Copy, Debug, PartialEq, Eq, Structural)]
pub enum ConfigError {
    TimeFieldMissing,
    TimeTypeMissing,
    TimestampColumnMissing,
}

/// The lower-case form of a text, as `str::to_lowercase` gives it.
pub uninterp spec fn lower_of(s: Seq<char>) -> Seq<char>;

/// A text without its leading and trailing white space, as `str::trim` gives it.
pub uninterp spec fn trim_of(s: Seq<char>) -> Seq<char>;

/// Relies on `str::to_lowercase`: the result depends on the characters alone.
#[verifier::external_body]
fn lowercase(s: &str) -> (r: String)
    ensures
        r@ == lower_of(s@),
{
    s.to_lowercase()
}

/// Relies on `str::trim`: the result depends on the characters alone.
#[verifier::external_body]
fn trimmed(s: &str) -> (r: &str)
    ensures
        r@ == trim_of(s@),
{
    s.trim()
}

/// The cells of a header line, split at every comma.
pub open spec fn split_commas(s: Seq<char>) -> Seq<Seq<char>>
    decreases s.len(),
{
    if s.len() == 0 {
        seq![Seq::empty()]
    } else {
        let prev = split_commas(s.drop_last());
        if s.last() == ',' {
            prev.push(Seq::empty())
        } else {
            prev.update(prev.len() - 1, prev.last().push(s.last()))
        }
    }
}

/// A header cell as it is compared with the configured names.
pub open spec fn normalized(cell: Seq<char>) -> Seq<char> {
    lower_of(trim_of(cell))
}

/// The first of `names[0..k]` that equals `cell`, or -1.
pub open spec fn slot_of(names: Seq<Seq<char>>, cell: Seq<char>, k: int) -> int
    decreases k,
{
    if k <= 0 {
        -1
    } else if slot_of(names, cell, k - 1) >= 0 {
        slot_of(names, cell, k - 1)
    } else if names[k - 1] == cell {
        k - 1
    } else {
        -1
    }
}

/// Once a name matches, later names do not change the slot.
proof fn lemma_slot_of_settled(names: Seq<Seq<char>>, cell: Seq<char>, k: int, j: int)
    requires
        0 <= k < j,
        slot_of(names, cell, k) == -1,
        names[k] == cell,
    ensures
        slot_of(names, cell, j) == k,
    decreases j,
{
    if j > k + 1 {
        lemma_slot_of_settled(names, cell, k, j - 1);
    }
}

proof fn lemma_slot_of_range(names: Seq<Seq<char>>, cell: Seq<char>, k: int)
    requires
        k >= 0,
    ensures
        -1 <= slot_of(names, cell, k) < k,
    decreases k,
{
    if k > 0 {
        lemma_slot_of_range(names, cell, k - 1);
    }
}

proof fn lemma_column_of_range(names: Seq<Seq<char>>, cells: Seq<Seq<char>>, slot: int, n: int)
    requires
        n >= 0,
    ensures
        -1 <= column_of(names, cells, slot, n) < n,
    decreases n,
{
    if n > 0 {
        lemma_column_of_range(names, cells, slot, n - 1);
    }
}

/// A column index as a result: `None` for -1.
pub open spec fn as_column(i: int) -> Option<usize> {
    if i >= 0 {
        Some(i as usize)
    } else {
        None
    }
}

/// The index of the last of `cells[0..n]` whose first matching name is
/// `names[slot]`, or -1.
pub open spec fn column_of(names: Seq<Seq<char>>, cells: Seq<Seq<char>>, slot: int, n: int) -> int
    decreases n,
{
    if n <= 0 {
        -1
    } else if slot_of(names, normalized(cells[n - 1]), names.len() as int) == slot {
        n - 1
    } else {
        column_of(names, cells, slot, n - 1)
    }
}

/// Which columns hold the time and the seven price fields, and how time is written.
pub struct CsvDataSourceBuilder {
    pub time_type: CsvTimeType,
    pub time_field: String,
    pub open_field: String,
    pub close_field: String,
    pub high_field: String,
    pub low_field: String,
    pub volume_field: String,
    pub openintrest_field: String,
    pub adjustclose_field: String,
}

impl CsvDataSourceBuilder {
    /// The configured column names, time first.
    pub open spec fn names(&self) -> Seq<Seq<char>> {
        seq![
            self.time_field@,
            self.open_field@,
            self.close_field@,
            self.high_field@,
            self.low_field@,
            self.volume_field@,
            self.openintrest_field@,
            self.adjustclose_field@,
        ]
    }

    /// No time column and an unknown time type; the price columns are named
    /// open, close, high, low, volume, "open intrest" and "adj close".
    pub fn new() -> (r: CsvDataSourceBuilder)
        ensures
            r.time_type is Unknown,
            r.time_field@ == Seq::<char>::empty(),
    {
        let time_field = "".to_owned();
        proof {
            reveal_strlit("");
        }
        CsvDataSourceBuilder {
            time_type: CsvTimeType::Unknown,
            time_field,
            open_field: "open".to_owned(),
            close_field: "close".to_owned(),
            high_field: "high".to_owned(),
            low_field: "low".to_owned(),
            volume_field: "volume".to_owned(),
            openintrest_field: "open intrest".to_owned(),
            adjustclose_field: "adj close".to_owned(),
        }
    }

    /// Sets how the time column is written.
    pub fn time_type(self, time_type: CsvTimeType) -> (r: Self)
        ensures
            r.time_type == time_type,
            r.names() == self.names(),
    {
        let mut b = self;
        b.time_type = time_type;
        b
    }

    /// Names the time column; names are compared in lower case.
    pub fn time_field(self, field: &str) -> (r: Self)
        ensures
            r.time_field@ == lower_of(field@),
            r.time_type == self.time_type,
            r.names() == self.names().update(0, lower_of(field@)),
    {
        let mut b = self;
        b.time_field = lowercase(field);
        b
    }

    /// Names the open-price column; names are compared in lower case.
    pub fn open_field(self, field: &str) -> (r: Self)
        ensures
            r.time_type == self.time_type,
            r.names() == self.names().update(1, lower_of(field@)),
    {
        let mut b = self;
        b.open_field = lowercase(field);
        b
    }

    /// Names the close-price column; names are compared in lower case.
    pub fn close_field(self, field: &str) -> (r: Self)
        ensures
            r.time_type == self.time_type,
            r.names() == self.names().update(2, lower_of(field@)),
    {
        let mut b = self;
        b.close_field = lowercase(field);
        b
    }

    /// Names the high-price column; names are compared in lower case.
    pub fn high_field(self, field: &str) -> (r: Self)
        ensures
            r.time_type == self.time_type,
            r.names() == self.names().update(3, lower_of(field@)),
    {
        let mut b = self;
        b.high_field = lowercase(field);
        b
    }

    /// Names the low-price column; names are compared in lower case.
    pub fn low_field(self, field: &str) -> (r: Self)
        ensures
            r.time_type == self.time_type,
            r.names() == self.names().update(4, lower_of(field@)),
    {
        let mut b = self;
        b.low_field = lowercase(field);
        b
    }

    /// Names the volume column; names are compared in lower case.
    pub fn volume_field(self, field: &str) -> (r: Self)
        ensures
            r.time_type == self.time_type,
            r.names() == self.names().update(5, lower_of(field@)),
    {
        let mut b = self;
        b.volume_field = lowercase(field);
        b
    }

    /// Names the open-interest column; names are compared in lower case.
    pub fn openintrest_field(self, field: &str) -> (r: Self)
        ensures
            r.time_type == self.time_type,
            r.names() == self.names().update(6, lower_of(field@)),
    {
        let mut b = self;
        b.openintrest_field = lowercase(field);
        b
    }

    /// Names the adjusted-close column; names are compared in lower case.
    pub fn adjustclose_field(self, field: &str) -> (r: Self)
        ensures
            r.time_type == self.time_type,
            r.names() == self.names().update(7, lower_of(field@)),
    {
        let mut b = self;
        b.adjustclose_field = lowercase(field);
        b
    }

    /// Checks that the time column and its type are configured.
    pub fn check_config(&self) -> (r: Result<(), ConfigError>)
        ensures
            self.time_field@.len() == 0 ==> r == Err::<(), ConfigError>(ConfigError::TimeFieldMissing),
            self.time_field@.len() != 0 && self.time_type is Unknown ==> r == Err::<(), ConfigError>(
                ConfigError::TimeTypeMissing,
            ),
            self.time_field@.len() != 0 && !(self.time_type is Unknown) ==> r is Ok,
    {
        if self.time_field.as_str().unicode_len() == 0 {
            return Err(ConfigError::TimeFieldMissing);
        }
        match self.time_type {
            CsvTimeType::Unknown => Err(ConfigError::TimeTypeMissing),
            _ => Ok(()),
        }
    }

    fn name(&self, slot: usize) -> (r: &String)
        requires
            slot < 8,
        ensures
            r@ == self.names()[slot as int],
    {
        if slot == 0 {
            &self.time_field
        } else if slot == 1 {
            &self.open_field
        } else if slot == 2 {
            &self.close_field
        } else if slot == 3 {
            &self.high_field
        } else if slot == 4 {
            &self.low_field
        } else if slot == 5 {
            &self.volume_field
        } else if slot == 6 {
            &self.openintrest_field
        } else {
            &self.adjustclose_field
        }
    }

    /// The first configured name that equals `cell`, or -1.
    fn slot_for(&self, cell: &String) -> (r: isize)
        ensures
            r == slot_of(self.names(), cell@, 8),
    {
        let mut k: usize = 0;
        while k < 8
            invariant
                k <= 8,
                slot_of(self.names(), cell@, k as int) == -1,
            decreases 8 - k,
        {
            if *self.name(k) == *cell {
                proof {
                    lemma_slot_of_settled(self.names(), cell@, k as int, 8);
                }
                return k as isize;
            }
            k = k + 1;
        }
        -1
    }

}

/// The column index of each configured field in a header line, time
/// first; a later cell wins over an earlier one. Fails when the time
/// column is not in the header.
pub fn get_column_indexies(builder: &CsvDataSourceBuilder, header_line: &str) -> (r: Result<Vec<Option<usize>>, ConfigError>)
    ensures
        ({
            let cells = split_commas(header_line@);
            let t = column_of(builder.names(), cells, 0, cells.len() as int);
            &&& t < 0 ==> r == Err::<Vec<Option<usize>>, ConfigError>(
                ConfigError::TimestampColumnMissing,
            )
            &&& t >= 0 ==> r is Ok && r->Ok_0@.len() == 8 && forall|k: int|
                0 <= k < 8 ==> r->Ok_0@[k] == as_column(
                    column_of(builder.names(), cells, k, cells.len() as int),
                )
        }),
{
    let cells = split_header(header_line);
    let ghost raw = split_commas(header_line@);
    let mut idx: Vec<Option<usize>> = vec![None, None, None, None, None, None, None, None];
    proof {
        assert forall|k: int| 0 <= k < 8 implies idx@[k] == as_column(
            column_of(builder.names(), raw, k, 0),
        ) by {}
    }
    let mut c: usize = 0;
    while c < cells.len()
        invariant
            cells@.len() == raw.len(),
            forall|j: int| 0 <= j < raw.len() ==> (#[trigger] cells@[j])@ == normalized(raw[j]),
            c <= cells.len(),
            idx@.len() == 8,
            forall|k: int|
                0 <= k < 8 ==> idx@[k] == as_column(column_of(builder.names(), raw, k, c as int)),
        decreases cells.len() - c,
    {
        let slot = builder.slot_for(&cells[c]);
        proof {
            lemma_slot_of_range(builder.names(), cells@[c as int]@, 8);
        }
        if slot >= 0 {
            idx.set(slot as usize, Some(c));
        }
        c = c + 1;
    }
    proof {
        lemma_column_of_range(builder.names(), raw, 0, raw.len() as int);
    }
    if idx[0].is_none() {
        Err(ConfigError::TimestampColumnMissing)
    } else {
        Ok(idx)
    }
}

/// The normalized cells of a header line: split at commas, trimmed, lower case.
fn split_header(line: &str) -> (cells: Vec<String>)
    ensures
        cells@.len() == split_commas(line@).len(),
        forall|j: int|
            0 <= j < cells@.len() ==> (#[trigger] cells@[j])@ == normalized(split_commas(line@)[j]),
{
    let n = line.unicode_len();
    let ghost s = line@;
    let mut cells: Vec<String> = Vec::new();
    let ghost mut raw: Seq<Seq<char>> = Seq::empty();
    let mut start: usize = 0;
    let mut i: usize = 0;
    proof {
        assert(s.take(0) =~= Seq::<char>::empty());
        assert(s.subrange(0, 0) =~= Seq::<char>::empty());
        assert(split_commas(Seq::<char>::empty()) == seq![Seq::<char>::empty()]);
        assert(raw.push(s.subrange(0, 0)) =~= seq![Seq::<char>::empty()]);
    }
    while i < n
        invariant
            n == s.len(),
            s == line@,
            start <= i <= n,
            cells@.len() == raw.len(),
            forall|j: int| 0 <= j < raw.len() ==> (#[trigger] cells@[j])@ == normalized(raw[j]),
            split_commas(s.take(i as int)) == raw.push(s.subrange(start as int, i as int)),
        decreases n - i,
    {
        let ch = line.get_char(i);
        proof {
            assert(s.take(i + 1).drop_last() =~= s.take(i as int));
            assert(s.take(i + 1).last() == ch);
        }
        if ch == ',' {
            let cell = line.substring_char(start, i);
            cells.push(lowercase(trimmed(cell)));
            proof {
                raw = raw.push(s.subrange(start as int, i as int));
                assert(s.subrange(i + 1, i + 1) =~= Seq::<char>::empty());
            }
            start = i + 1;
        } else {
            proof {
                assert(s.subrange(start as int, i + 1) =~= s.subrange(start as int, i as int).push(ch));
                assert(raw.push(s.subrange(start as int, i as int)).update(
                    raw.len() as int,
                    s.subrange(start as int, i + 1),
                ) =~= raw.push(s.subrange(start as int, i + 1)));
            }
        }
        i = i + 1;
    }
    let cell = line.substring_char(start, n);
    cells.push(lowercase(trimmed(cell)));
    proof {
        assert(s.take(n as int) =~= s);
        raw = raw.push(s.subrange(start as int, n as int));
    }
    cells
}

} // verus!
