use vstd::prelude::*;

verus! {

/// The characters of each string of a sequence.
pub open spec fn texts_view(s: Seq<String>) -> Seq<Seq<char>> {
    s.map_values(|x: String| x@)
}

/// A sequence of string pairs, as pairs of character sequences.
pub open spec fn pairs_view(s: Seq<(String, String)>) -> Seq<(Seq<char>, Seq<char>)> {
    s.map_values(|p: (String, String)| (p.0@, p.1@))
}

/// Which observations a request asks for: the dates are `YYYY-MM-DD`,
/// the count of the dynamic mode a non-negative integer written as text.
pub enum TimeSelector {
    TimePeriod { start: String, end: String },
    Dynamic { periods: String },
}

impl TimeSelector {
    /// The query parameters that select this time range, in order.
    pub open spec fn param_view(&self) -> Seq<(Seq<char>, Seq<char>)> {
        match self {
            TimeSelector::TimePeriod { start, end } => seq![
                (seq!['s', 't', 'a', 'r', 't', 'P', 'e', 'r', 'i', 'o', 'd'], start@),
                (seq!['e', 'n', 'd', 'P', 'e', 'r', 'i', 'o', 'd'], end@),
            ],
            TimeSelector::Dynamic { periods } => seq![
                (
                    seq![
                        'l', 'a', 's', 't', 'N', 'O', 'b', 's', 'e', 'r', 'v', 'a', 't', 'i', 'o',
                        'n', 's',
                    ],
                    periods@,
                ),
            ],
        }
    }

    /// Appends the time parameters of this selector to `params`.
    pub fn time_matching(self, params: Vec<(String, String)>) -> (r: Vec<(String, String)>)
        ensures
            pairs_view(r@) == pairs_view(params@) + self.param_view(),
    {
        let ghost sel = self;
        let ghost before = params@;
        let mut params = params;
        match self {
            TimeSelector::TimePeriod { start, end } => {
                proof {
                    reveal_strlit("startPeriod");
                    reveal_strlit("endPeriod");
                }
                let k1 = "startPeriod".to_string();
                let k2 = "endPeriod".to_string();
                assert(k1@ =~= seq!['s', 't', 'a', 'r', 't', 'P', 'e', 'r', 'i', 'o', 'd']);
                assert(k2@ =~= seq!['e', 'n', 'd', 'P', 'e', 'r', 'i', 'o', 'd']);
                params.push((k1, start));
                params.push((k2, end));
            },
            TimeSelector::Dynamic { periods } => {
                proof {
                    reveal_strlit("lastNObservations");
                }
                let k = "lastNObservations".to_string();
                assert(k@ =~= seq![
                    'l', 'a', 's', 't', 'N', 'O', 'b', 's', 'e', 'r', 'v', 'a', 't', 'i', 'o',
                    'n', 's',
                ]);
                params.push((k, periods));
            },
        }
        assert(pairs_view(params@) =~= pairs_view(before) + sel.param_view());
        params
    }
}

/// The kinds of instrument of the primary-market endpoint.
#[derive(Debug, Clone, Copy, PartialEq, Eq, Structural, Hash)]
pub enum InstrumentType {
    /// Government bonds.
    Gbon,
    /// Treasury bills.
    Tbil,
}

impl InstrumentType {
    /// The code of the instrument type in a request path.
    pub open spec fn code(&self) -> Seq<char> {
        match self {
            InstrumentType::Gbon => seq!['G', 'B', 'O', 'N'],
            InstrumentType::Tbil => seq!['T', 'B', 'I', 'L'],
        }
    }

    /// The code of the instrument type: `GBON` or `TBIL`.
    pub fn as_str(&self) -> (r: &'static str)
        ensures
            r@ == self.code(),
    {
        match self {
            InstrumentType::Gbon => {
                proof {
                    reveal_strlit("GBON");
                }
                "GBON"
            },
            InstrumentType::Tbil => {
                proof {
                    reveal_strlit("TBIL");
                }
                "TBIL"
            },
        }
    }
}

impl From<Vec<InstrumentType>> for InstrumentSelection {
    fn from(types: Vec<InstrumentType>) -> (r: Self)
        ensures
            r@ == types@,
    {
        InstrumentSelection { types }
    }
}

impl vstd::std_specs::convert::FromSpecImpl<Vec<InstrumentType>> for InstrumentSelection {
    open spec fn obeys_from_spec() -> bool {
        true
    }

    closed spec fn from_spec(types: Vec<InstrumentType>) -> Self {
        InstrumentSelection { types }
    }
}

/// A choice of instrument types, in the order in which a request lists them.
pub struct InstrumentSelection {
    types: Vec<InstrumentType>,
}

impl View for InstrumentSelection {
    type V = Seq<InstrumentType>;

    closed spec fn view(&self) -> Seq<InstrumentType> {
        self.types@
    }
}

impl InstrumentSelection {
    /// Government bonds and treasury bills.
    pub fn all() -> (r: Self)
        ensures
            r@ == seq![InstrumentType::Gbon, InstrumentType::Tbil],
    {
        InstrumentSelection { types: vec![InstrumentType::Gbon, InstrumentType::Tbil] }
    }

    /// Government bonds alone.
    pub fn gbon() -> (r: Self)
        ensures
            r@ == seq![InstrumentType::Gbon],
    {
        InstrumentSelection { types: vec![InstrumentType::Gbon] }
    }

    /// Treasury bills alone.
    pub fn tbil() -> (r: Self)
        ensures
            r@ == seq![InstrumentType::Tbil],
    {
        InstrumentSelection { types: vec![InstrumentType::Tbil] }
    }

    /// A selection of the given types, in their order.
    pub fn from_types(types: Vec<InstrumentType>) -> (r: Self)
        ensures
            r@ == types@,
    {
        InstrumentSelection { types }
    }

    /// The selected types, in order.
    pub fn iter(&self) -> (r: Vec<InstrumentType>)
        ensures
            r@ == self@,
    {
        self.types.clone()
    }

    /// The codes of the selected types, in order.
    pub fn codes(&self) -> (r: Vec<String>)
        ensures
            texts_view(r@) == self@.map_values(|t: InstrumentType| t.code()),
    {
        let mut out: Vec<String> = Vec::new();
        let mut i: usize = 0;
        while i < self.types.len()
            invariant
                i <= self.types.len(),
                texts_view(out@) == self@.take(i as int).map_values(|t: InstrumentType| t.code()),
            decreases self.types.len() - i,
        {
            let code = self.types[i].as_str().to_string();
            out.push(code);
            assert(self@.take(i + 1).map_values(|t: InstrumentType| t.code()) =~= self@.take(
                i as int,
            ).map_values(|t: InstrumentType| t.code()).push(self@[i as int].code()));
            assert(texts_view(out@) =~= self@.take(i + 1).map_values(|t: InstrumentType| t.code()));
            i += 1;
        }
        assert(self@.take(i as int) =~= self@);
        out
    }
}

} // verus!
