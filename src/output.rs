use vstd::prelude::*;

verus! {

/// A record as the contracts see it: the file's path and its content.
pub type RecordView = (Seq<char>, Seq<char>);

/// One file taken into the aggregate.
pub struct Record {
    pub path: String,
    pub content: String,
}

/// The text of one record: the path on its own line, the content, a blank line.
pub open spec fn render_record(r: RecordView) -> Seq<char> {
    r.0 + "\n"@ + r.1 + "\n\n"@
}

/// The text of a sequence of records, in order, with nothing around them.
pub open spec fn render(rs: Seq<RecordView>) -> Seq<char>
    decreases rs.len(),
{
    if rs.len() == 0 {
        Seq::empty()
    } else {
        render(rs.drop_last()) + render_record(rs.last())
    }
}

/// The append-only sequence of records gathered by one run.
pub struct Aggregate {
    records: Vec<Record>,
}

impl View for Aggregate {
    type V = Seq<RecordView>;

    closed spec fn view(&self) -> Seq<RecordView> {
        self.records@.map_values(|r: Record| (r.path@, r.content@))
    }
}

impl Aggregate {
    /// An aggregate with no record yet.
    pub fn new() -> (r: Aggregate)
        ensures
            r@ == Seq::<RecordView>::empty(),
    {
        let r = Aggregate { records: Vec::new() };
        assert(r@ =~= Seq::<RecordView>::empty());
        r
    }

    /// Appends a record after all earlier ones.
    pub fn append(&mut self, path: String, content: String)
        ensures
            final(self)@ == old(self)@.push((path@, content@)),
    {
        self.records.push(Record { path, content });
        assert(self@ =~= old(self)@.push((path@, content@)));
    }

    /// The number of files taken so far.
    pub fn file_count(&self) -> (r: usize)
        ensures
            r == self@.len(),
    {
        self.records.len()
    }

    /// The path of the `i`-th record.
    pub fn path_at(&self, i: usize) -> (r: &String)
        requires
            i < self@.len(),
        ensures
            r@ == self@[i as int].0,
    {
        &self.records[i].path
    }

    /// The content of the `i`-th record.
    pub fn content_at(&self, i: usize) -> (r: &String)
        requires
            i < self@.len(),
        ensures
            r@ == self@[i as int].1,
    {
        &self.records[i].content
    }

    /// The aggregate as one text: each record's path line, content and blank
    /// line, in the order they were appended.
    pub fn text(&self) -> (r: String)
        ensures
            r@ == render(self@),
    {
        let mut r = String::new();
        let mut i: usize = 0;
        while i < self.records.len()
            invariant
                i <= self@.len(),
                r@ == render(self@.take(i as int)),
            decreases self.records.len() - i,
        {
            let rec = &self.records[i];
            r.append(rec.path.as_str());
            r.append("\n");
            r.append(rec.content.as_str());
            r.append("\n\n");
            assert(self@.take(i + 1).drop_last() =~= self@.take(i as int));
            i += 1;
        }
        assert(self@.take(i as int) =~= self@);
        r
    }
}

} // verus!
