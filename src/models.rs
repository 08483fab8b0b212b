use vstd::prelude::*;
use crate::json::{Json, find_key, json_doc, lookup, member, parse_json};
use crate::types::texts_view;
use crate::series_key::{key_indices, series_key_indices};
use crate::decode::{
    DecodeError, FromJson, decode_default_list, decode_default_pairs, decode_field,
    decode_field_pairs, decode_opt, default_list_accepts, default_list_decodes,
    default_pairs_accepts, default_pairs_decodes, field_accepts, field_decodes,
    field_pairs_accepts, field_pairs_decodes, list_decodes, opt_accepts, opt_decodes,
};

verus! {

/// A link to a related resource.
#[derive(Debug)]
pub struct Link {
    pub rel: String,
    pub urn: Option<String>,
    pub href: Option<String>,
    pub uri: Option<String>,
}

/// The identity of a sender or receiver.
#[derive(Debug)]
pub struct Entity {
    pub id: String,
}

/// What the response says of itself.
#[derive(Debug)]
pub struct Meta {
    pub id: String,
    pub prepared: String,
    pub test: bool,
    pub dataset_id: String,
    pub sender: Entity,
    pub receiver: Entity,
    pub links: Vec<Link>,
}

/// One value of a component: its code, its name, and the period it stands
/// for where it is a reporting period.
#[derive(Debug)]
pub struct ComponentValue {
    pub id: String,
    pub name: Option<String>,
    pub description: Option<String>,
    pub start: Option<String>,
    pub end: Option<String>,
}

/// The dimensions that an attribute or dimension depends on.
#[derive(Debug)]
pub struct Relationship {
    pub dimensions: Vec<String>,
}

/// A dimension or attribute, with the values it takes; a series-level
/// dimension has its slot in the series key as `key_position`.
#[derive(Debug)]
pub struct Component {
    pub id: String,
    pub name: String,
    pub description: Option<String>,
    pub key_position: Option<u32>,
    pub role: Option<String>,
    pub relationship: Option<Relationship>,
    pub values: Vec<ComponentValue>,
}

/// The dimensions at data-set, series and observation level.
#[derive(Debug)]
pub struct Dimensions {
    pub dataset: Vec<Component>,
    pub series: Vec<Component>,
    pub observation: Vec<Component>,
}

/// The attributes at data-set, series and observation level.
#[derive(Debug)]
pub struct Attributes {
    pub dataset: Vec<Component>,
    pub series: Vec<Component>,
    pub observation: Vec<Component>,
}

/// The schema of a response; `names` and `descriptions` hold one text per
/// locale.
#[derive(Debug)]
pub struct Structure {
    pub links: Vec<Link>,
    pub name: String,
    pub names: Vec<(String, String)>,
    pub description: String,
    pub descriptions: Vec<(String, String)>,
    pub dimensions: Dimensions,
    pub attributes: Attributes,
}

/// One time series: the index of each series attribute's value (nothing where
/// it does not apply), and the observations by observation index, each index
/// once, each a list whose first item is the value as text.
#[derive(Debug)]
pub struct Series {
    pub attributes: Vec<Option<u32>>,
    pub observations: Vec<(String, Vec<String>)>,
}

/// One block of data: its series by series key, each key once.
#[derive(Debug)]
pub struct DataSet {
    pub links: Vec<Link>,
    pub reporting_begin: String,
    pub reporting_end: String,
    pub action: String,
    pub series: Vec<(String, Series)>,
}

/// The data sets of a response and the structure that explains them.
#[derive(Debug)]
pub struct Data {
    pub data_sets: Vec<DataSet>,
    pub structure: Structure,
}

/// A whole response.
#[derive(Debug)]
pub struct ApiResponse {
    pub meta: Meta,
    pub data: Data,
}

impl FromJson for Link {
    open spec fn accepts(j: Json) -> bool {
        field_accepts::<String>(j, "rel"@) && opt_accepts::<String>(j, "urn"@) && opt_accepts::<
            String,
        >(j, "href"@) && opt_accepts::<String>(j, "uri"@)
    }

    open spec fn decodes_to(j: Json, x: Link) -> bool {
        field_decodes::<String>(j, "rel"@, x.rel) && opt_decodes::<String>(j, "urn"@, x.urn)
            && opt_decodes::<String>(j, "href"@, x.href) && opt_decodes::<String>(
            j,
            "uri"@,
            x.uri,
        )
    }

    fn from_json(j: &Json) -> (r: Result<Link, DecodeError>) {
        let rel = decode_field::<String>(j, "rel")?;
        let urn = decode_opt::<String>(j, "urn")?;
        let href = decode_opt::<String>(j, "href")?;
        let uri = decode_opt::<String>(j, "uri")?;
        Ok(Link { rel, urn, href, uri })
    }
}

impl FromJson for Entity {
    open spec fn accepts(j: Json) -> bool {
        field_accepts::<String>(j, "id"@)
    }

    open spec fn decodes_to(j: Json, x: Entity) -> bool {
        field_decodes::<String>(j, "id"@, x.id)
    }

    fn from_json(j: &Json) -> (r: Result<Entity, DecodeError>) {
        let id = decode_field::<String>(j, "id")?;
        Ok(Entity { id })
    }
}

impl FromJson for Meta {
    open spec fn accepts(j: Json) -> bool {
        &&& field_accepts::<String>(j, "id"@)
        &&& field_accepts::<String>(j, "prepared"@)
        &&& field_accepts::<bool>(j, "test"@)
        &&& field_accepts::<String>(j, "datasetId"@)
        &&& field_accepts::<Entity>(j, "sender"@)
        &&& field_accepts::<Entity>(j, "receiver"@)
        &&& default_list_accepts::<Link>(j, "links"@)
    }

    open spec fn decodes_to(j: Json, x: Meta) -> bool {
        &&& field_decodes::<String>(j, "id"@, x.id)
        &&& field_decodes::<String>(j, "prepared"@, x.prepared)
        &&& field_decodes::<bool>(j, "test"@, x.test)
        &&& field_decodes::<String>(j, "datasetId"@, x.dataset_id)
        &&& field_decodes::<Entity>(j, "sender"@, x.sender)
        &&& field_decodes::<Entity>(j, "receiver"@, x.receiver)
        &&& default_list_decodes::<Link>(j, "links"@, x.links@)
    }

    fn from_json(j: &Json) -> (r: Result<Meta, DecodeError>) {
        let id = decode_field::<String>(j, "id")?;
        let prepared = decode_field::<String>(j, "prepared")?;
        let test = decode_field::<bool>(j, "test")?;
        let dataset_id = decode_field::<String>(j, "datasetId")?;
        let sender = decode_field::<Entity>(j, "sender")?;
        let receiver = decode_field::<Entity>(j, "receiver")?;
        let links = decode_default_list::<Link>(j, "links")?;
        Ok(Meta { id, prepared, test, dataset_id, sender, receiver, links })
    }
}

impl FromJson for ComponentValue {
    open spec fn accepts(j: Json) -> bool {
        &&& field_accepts::<String>(j, "id"@)
        &&& opt_accepts::<String>(j, "name"@)
        &&& opt_accepts::<String>(j, "description"@)
        &&& opt_accepts::<String>(j, "start"@)
        &&& opt_accepts::<String>(j, "end"@)
    }

    open spec fn decodes_to(j: Json, x: ComponentValue) -> bool {
        &&& field_decodes::<String>(j, "id"@, x.id)
        &&& opt_decodes::<String>(j, "name"@, x.name)
        &&& opt_decodes::<String>(j, "description"@, x.description)
        &&& opt_decodes::<String>(j, "start"@, x.start)
        &&& opt_decodes::<String>(j, "end"@, x.end)
    }

    fn from_json(j: &Json) -> (r: Result<ComponentValue, DecodeError>) {
        let id = decode_field::<String>(j, "id")?;
        let name = decode_opt::<String>(j, "name")?;
        let description = decode_opt::<String>(j, "description")?;
        let start = decode_opt::<String>(j, "start")?;
        let end = decode_opt::<String>(j, "end")?;
        Ok(ComponentValue { id, name, description, start, end })
    }
}

impl FromJson for Relationship {
    open spec fn accepts(j: Json) -> bool {
        field_accepts::<Vec<String>>(j, "dimensions"@)
    }

    open spec fn decodes_to(j: Json, x: Relationship) -> bool {
        field_decodes::<Vec<String>>(j, "dimensions"@, x.dimensions)
    }

    fn from_json(j: &Json) -> (r: Result<Relationship, DecodeError>) {
        let dimensions = decode_field::<Vec<String>>(j, "dimensions")?;
        Ok(Relationship { dimensions })
    }
}

impl FromJson for Component {
    open spec fn accepts(j: Json) -> bool {
        &&& field_accepts::<String>(j, "id"@)
        &&& field_accepts::<String>(j, "name"@)
        &&& opt_accepts::<String>(j, "description"@)
        &&& opt_accepts::<u32>(j, "keyPosition"@)
        &&& opt_accepts::<String>(j, "role"@)
        &&& opt_accepts::<Relationship>(j, "relationship"@)
        &&& default_list_accepts::<ComponentValue>(j, "values"@)
    }

    open spec fn decodes_to(j: Json, x: Component) -> bool {
        &&& field_decodes::<String>(j, "id"@, x.id)
        &&& field_decodes::<String>(j, "name"@, x.name)
        &&& opt_decodes::<String>(j, "description"@, x.description)
        &&& opt_decodes::<u32>(j, "keyPosition"@, x.key_position)
        &&& opt_decodes::<String>(j, "role"@, x.role)
        &&& opt_decodes::<Relationship>(j, "relationship"@, x.relationship)
        &&& default_list_decodes::<ComponentValue>(j, "values"@, x.values@)
    }

    fn from_json(j: &Json) -> (r: Result<Component, DecodeError>) {
        let id = decode_field::<String>(j, "id")?;
        let name = decode_field::<String>(j, "name")?;
        let description = decode_opt::<String>(j, "description")?;
        let key_position = decode_opt::<u32>(j, "keyPosition")?;
        let role = decode_opt::<String>(j, "role")?;
        let relationship = decode_opt::<Relationship>(j, "relationship")?;
        let values = decode_default_list::<ComponentValue>(j, "values")?;
        Ok(Component { id, name, description, key_position, role, relationship, values })
    }
}

impl FromJson for Dimensions {
    open spec fn accepts(j: Json) -> bool {
        &&& field_accepts::<Vec<Component>>(j, "dataset"@)
        &&& field_accepts::<Vec<Component>>(j, "series"@)
        &&& field_accepts::<Vec<Component>>(j, "observation"@)
    }

    open spec fn decodes_to(j: Json, x: Dimensions) -> bool {
        &&& field_decodes::<Vec<Component>>(j, "dataset"@, x.dataset)
        &&& field_decodes::<Vec<Component>>(j, "series"@, x.series)
        &&& field_decodes::<Vec<Component>>(j, "observation"@, x.observation)
    }

    fn from_json(j: &Json) -> (r: Result<Dimensions, DecodeError>) {
        let dataset = decode_field::<Vec<Component>>(j, "dataset")?;
        let series = decode_field::<Vec<Component>>(j, "series")?;
        let observation = decode_field::<Vec<Component>>(j, "observation")?;
        Ok(Dimensions { dataset, series, observation })
    }
}

impl FromJson for Attributes {
    open spec fn accepts(j: Json) -> bool {
        &&& field_accepts::<Vec<Component>>(j, "dataset"@)
        &&& field_accepts::<Vec<Component>>(j, "series"@)
        &&& field_accepts::<Vec<Component>>(j, "observation"@)
    }

    open spec fn decodes_to(j: Json, x: Attributes) -> bool {
        &&& field_decodes::<Vec<Component>>(j, "dataset"@, x.dataset)
        &&& field_decodes::<Vec<Component>>(j, "series"@, x.series)
        &&& field_decodes::<Vec<Component>>(j, "observation"@, x.observation)
    }

    fn from_json(j: &Json) -> (r: Result<Attributes, DecodeError>) {
        let dataset = decode_field::<Vec<Component>>(j, "dataset")?;
        let series = decode_field::<Vec<Component>>(j, "series")?;
        let observation = decode_field::<Vec<Component>>(j, "observation")?;
        Ok(Attributes { dataset, series, observation })
    }
}

impl FromJson for Structure {
    open spec fn accepts(j: Json) -> bool {
        &&& default_list_accepts::<Link>(j, "links"@)
        &&& field_accepts::<String>(j, "name"@)
        &&& default_pairs_accepts::<String>(j, "names"@)
        &&& field_accepts::<String>(j, "description"@)
        &&& default_pairs_accepts::<String>(j, "descriptions"@)
        &&& field_accepts::<Dimensions>(j, "dimensions"@)
        &&& field_accepts::<Attributes>(j, "attributes"@)
    }

    open spec fn decodes_to(j: Json, x: Structure) -> bool {
        &&& default_list_decodes::<Link>(j, "links"@, x.links@)
        &&& field_decodes::<String>(j, "name"@, x.name)
        &&& default_pairs_decodes::<String>(j, "names"@, x.names@)
        &&& field_decodes::<String>(j, "description"@, x.description)
        &&& default_pairs_decodes::<String>(j, "descriptions"@, x.descriptions@)
        &&& field_decodes::<Dimensions>(j, "dimensions"@, x.dimensions)
        &&& field_decodes::<Attributes>(j, "attributes"@, x.attributes)
    }

    fn from_json(j: &Json) -> (r: Result<Structure, DecodeError>) {
        let links = decode_default_list::<Link>(j, "links")?;
        let name = decode_field::<String>(j, "name")?;
        let names = decode_default_pairs::<String>(j, "names")?;
        let description = decode_field::<String>(j, "description")?;
        let descriptions = decode_default_pairs::<String>(j, "descriptions")?;
        let dimensions = decode_field::<Dimensions>(j, "dimensions")?;
        let attributes = decode_field::<Attributes>(j, "attributes")?;
        Ok(Structure { links, name, names, description, descriptions, dimensions, attributes })
    }
}

impl FromJson for Series {
    open spec fn accepts(j: Json) -> bool {
        &&& field_accepts::<Vec<Option<u32>>>(j, "attributes"@)
        &&& field_pairs_accepts::<Vec<String>>(j, "observations"@)
    }

    open spec fn decodes_to(j: Json, x: Series) -> bool {
        &&& field_decodes::<Vec<Option<u32>>>(j, "attributes"@, x.attributes)
        &&& field_pairs_decodes::<Vec<String>>(j, "observations"@, x.observations@)
    }

    fn from_json(j: &Json) -> (r: Result<Series, DecodeError>) {
        let attributes = decode_field::<Vec<Option<u32>>>(j, "attributes")?;
        let observations = decode_field_pairs::<Vec<String>>(j, "observations")?;
        Ok(Series { attributes, observations })
    }
}

impl FromJson for DataSet {
    open spec fn accepts(j: Json) -> bool {
        &&& default_list_accepts::<Link>(j, "links"@)
        &&& field_accepts::<String>(j, "reportingBegin"@)
        &&& field_accepts::<String>(j, "reportingEnd"@)
        &&& field_accepts::<String>(j, "action"@)
        &&& field_pairs_accepts::<Series>(j, "series"@)
    }

    open spec fn decodes_to(j: Json, x: DataSet) -> bool {
        &&& default_list_decodes::<Link>(j, "links"@, x.links@)
        &&& field_decodes::<String>(j, "reportingBegin"@, x.reporting_begin)
        &&& field_decodes::<String>(j, "reportingEnd"@, x.reporting_end)
        &&& field_decodes::<String>(j, "action"@, x.action)
        &&& field_pairs_decodes::<Series>(j, "series"@, x.series@)
    }

    fn from_json(j: &Json) -> (r: Result<DataSet, DecodeError>) {
        let links = decode_default_list::<Link>(j, "links")?;
        let reporting_begin = decode_field::<String>(j, "reportingBegin")?;
        let reporting_end = decode_field::<String>(j, "reportingEnd")?;
        let action = decode_field::<String>(j, "action")?;
        let series = decode_field_pairs::<Series>(j, "series")?;
        Ok(DataSet { links, reporting_begin, reporting_end, action, series })
    }
}

impl FromJson for Data {
    open spec fn accepts(j: Json) -> bool {
        &&& field_accepts::<Vec<DataSet>>(j, "dataSets"@)
        &&& field_accepts::<Structure>(j, "structure"@)
    }

    open spec fn decodes_to(j: Json, x: Data) -> bool {
        &&& field_decodes::<Vec<DataSet>>(j, "dataSets"@, x.data_sets)
        &&& field_decodes::<Structure>(j, "structure"@, x.structure)
    }

    fn from_json(j: &Json) -> (r: Result<Data, DecodeError>) {
        let data_sets = decode_field::<Vec<DataSet>>(j, "dataSets")?;
        let structure = decode_field::<Structure>(j, "structure")?;
        Ok(Data { data_sets, structure })
    }
}

impl FromJson for ApiResponse {
    open spec fn accepts(j: Json) -> bool {
        &&& field_accepts::<Meta>(j, "meta"@)
        &&& field_accepts::<Data>(j, "data"@)
    }

    open spec fn decodes_to(j: Json, x: ApiResponse) -> bool {
        &&& field_decodes::<Meta>(j, "meta"@, x.meta)
        &&& field_decodes::<Data>(j, "data"@, x.data)
    }

    fn from_json(j: &Json) -> (r: Result<ApiResponse, DecodeError>) {
        let meta = decode_field::<Meta>(j, "meta")?;
        let data = decode_field::<Data>(j, "data")?;
        Ok(ApiResponse { meta, data })
    }
}

/// The level of a structure that a dimension belongs to.
#[derive(Debug, Clone, Copy, PartialEq, Eq, Structural)]
pub enum DimensionScope {
    Dataset,
    Series,
    Observation,
}

/// The first component whose id is `id`.
pub open spec fn find_component(cs: Seq<Component>, id: Seq<char>) -> Option<Component>
    decreases cs.len(),
{
    if cs.len() == 0 {
        None
    } else if cs[0].id@ == id {
        Some(cs[0])
    } else {
        find_component(cs.drop_first(), id)
    }
}

/// The value at `index` of the first component whose id is `id`: nothing
/// where no component has that id or the index is past its values.
pub open spec fn value_at(cs: Seq<Component>, id: Seq<char>, index: int) -> Option<ComponentValue> {
    match find_component(cs, id) {
        Some(c) => if 0 <= index < c.values@.len() {
            Some(c.values@[index])
        } else {
            None
        },
        None => None,
    }
}

/// Finds the first component whose id is `id`.
pub fn component_by_id<'a>(cs: &'a Vec<Component>, id: &str) -> (r: Option<&'a Component>)
    ensures
        match r {
            Some(c) => find_component(cs@, id@) == Some(*c),
            None => find_component(cs@, id@) is None,
        },
{
    let k = id.to_string();
    let mut i: usize = 0;
    assert(cs@.subrange(0, cs@.len() as int) =~= cs@);
    while i < cs.len()
        invariant
            i <= cs.len(),
            k@ == id@,
            find_component(cs@, id@) == find_component(cs@.subrange(i as int, cs@.len() as int), id@),
        decreases cs.len() - i,
    {
        assert(cs@.subrange(i as int, cs@.len() as int).drop_first() =~= cs@.subrange(
            i + 1,
            cs@.len() as int,
        ));
        if cs[i].id == k {
            return Some(&cs[i]);
        }
        i += 1;
    }
    None
}

impl Dimensions {
    /// The dimensions of one level.
    pub open spec fn in_scope(&self, scope: DimensionScope) -> Seq<Component> {
        match scope {
            DimensionScope::Dataset => self.dataset@,
            DimensionScope::Series => self.series@,
            DimensionScope::Observation => self.observation@,
        }
    }

    /// The value at `index` of the dimension `dimension_id` of the level
    /// `scope`; nothing where there is no such dimension or value.
    pub fn find_value(&self, scope: DimensionScope, dimension_id: &str, index: usize) -> (r:
        Option<&ComponentValue>)
        ensures
            match r {
                Some(v) => value_at(self.in_scope(scope), dimension_id@, index as int) == Some(*v),
                None => value_at(self.in_scope(scope), dimension_id@, index as int) is None,
            },
    {
        let cs = match scope {
            DimensionScope::Dataset => &self.dataset,
            DimensionScope::Series => &self.series,
            DimensionScope::Observation => &self.observation,
        };
        match component_by_id(cs, dimension_id) {
            Some(c) => if index < c.values.len() {
                Some(&c.values[index])
            } else {
                None
            },
            None => None,
        }
    }
}

impl DataSet {
    /// The series stored under `key`.
    pub fn series_by_key(&self, key: &str) -> (r: Option<&Series>)
        ensures
            match r {
                Some(s) => find_key(self.series@, key@) == Some(*s),
                None => find_key(self.series@, key@) is None,
            },
    {
        lookup(&self.series, key)
    }
}

impl Series {
    /// The observation stored under the observation index `index`.
    pub fn observation(&self, index: &str) -> (r: Option<&Vec<String>>)
        ensures
            match r {
                Some(v) => find_key(self.observations@, index@) == Some(*v),
                None => find_key(self.observations@, index@) is None,
            },
    {
        lookup(&self.observations, index)
    }
}

impl ApiResponse {
    /// The code of the value at `index` of the series dimension
    /// `dimension_id`; empty where there is none.
    pub open spec fn dimension_value_view(&self, dimension_id: Seq<char>, index: int) -> Seq<char> {
        match value_at(self.data.structure.dimensions.series@, dimension_id, index) {
            Some(v) => v.id@,
            None => Seq::empty(),
        }
    }

    /// The name of the value at `index` of the series dimension
    /// `dimension_id`; empty where there is none or it has no name.
    pub open spec fn dimension_name_view(&self, dimension_id: Seq<char>, index: int) -> Seq<char> {
        match value_at(self.data.structure.dimensions.series@, dimension_id, index) {
            Some(v) => match v.name {
                Some(n) => n@,
                None => Seq::empty(),
            },
            None => Seq::empty(),
        }
    }

    /// The items of the observation `index` of the series `key` in the data
    /// set `dataset`.
    pub open spec fn observation_view(&self, dataset: int, key: Seq<char>, index: Seq<char>) -> Option<
        Seq<Seq<char>>,
    > {
        if 0 <= dataset < self.data.data_sets@.len() {
            match find_key(self.data.data_sets@[dataset].series@, key) {
                Some(s) => match find_key(s.observations@, index) {
                    Some(v) => Some(texts_view(v@)),
                    None => None,
                },
                None => None,
            }
        } else {
            None
        }
    }

    /// The code of the value at `index` of the series dimension
    /// `dimension_id`; empty where there is no such dimension or value.
    pub fn get_dimension_value(&self, dimension_id: &str, index: usize) -> (r: String)
        ensures
            r@ == self.dimension_value_view(dimension_id@, index as int),
    {
        match self.data.structure.dimensions.find_value(DimensionScope::Series, dimension_id, index) {
            Some(v) => v.id.clone(),
            None => String::new(),
        }
    }

    /// The name of the value at `index` of the series dimension
    /// `dimension_id`; empty where there is no such dimension or value, or
    /// the value has no name.
    pub fn get_dimension_name(&self, dimension_id: &str, index: usize) -> (r: String)
        ensures
            r@ == self.dimension_name_view(dimension_id@, index as int),
    {
        match self.data.structure.dimensions.find_value(DimensionScope::Series, dimension_id, index) {
            Some(v) => match &v.name {
                Some(n) => n.clone(),
                None => String::new(),
            },
            None => String::new(),
        }
    }

    /// The observation `index` of the series `key` in the data set `dataset`.
    pub fn observation(&self, dataset: usize, key: &str, index: &str) -> (r: Option<&Vec<String>>)
        ensures
            match r {
                Some(v) => self.observation_view(dataset as int, key@, index@) == Some(texts_view(v@)),
                None => self.observation_view(dataset as int, key@, index@) is None,
            },
    {
        if dataset >= self.data.data_sets.len() {
            return None;
        }
        match self.data.data_sets[dataset].series_by_key(key) {
            Some(s) => s.observation(index),
            None => None,
        }
    }
}

/// Reads a response from a JSON value: it succeeds exactly when every
/// required member is there with its type, and gives what the value holds.
pub fn decode_response(j: &Json) -> (r: Result<ApiResponse, DecodeError>)
    ensures
        r is Ok <==> ApiResponse::accepts(*j),
        r matches Err(e) ==> e == DecodeError::Schema,
        r matches Ok(x) ==> ApiResponse::decodes_to(*j, x),
{
    ApiResponse::from_json(j)
}

/// Reads a response from the bytes of a body: fails with `NotJson` where they
/// are no JSON document, and as `decode_response` does otherwise.
pub fn parse_response(body: &[u8]) -> (r: Result<ApiResponse, DecodeError>)
    ensures
        match json_doc(body@) {
            None => r == Err::<ApiResponse, DecodeError>(DecodeError::NotJson),
            Some(j) => (r is Ok <==> ApiResponse::accepts(j)) && (r matches Err(e) ==> e
                == DecodeError::Schema) && (r matches Ok(x) ==> ApiResponse::decodes_to(j, x)),
        },
{
    match parse_json(body) {
        Some(j) => decode_response(&j),
        None => Err(DecodeError::NotJson),
    }
}

/// The characters of each item of an array of strings.
pub open spec fn json_texts(j: Json) -> Seq<Seq<char>> {
    match j {
        Json::Array(a) => a@.map_values(|x: Json| x->Str_0@),
        _ => Seq::empty(),
    }
}

/// The observation `index` of the series `key` in the data set `dataset`,
/// read straight from the JSON value of a response.
pub open spec fn json_observation(j: Json, dataset: int, key: Seq<char>, index: Seq<char>) -> Option<
    Seq<Seq<char>>,
> {
    match member(j, "data"@) {
        Some(data) => match member(data, "dataSets"@) {
            Some(Json::Array(sets)) => if 0 <= dataset < sets@.len() {
                match member(sets@[dataset], "series"@) {
                    Some(series) => match member(series, key) {
                        Some(s) => match member(s, "observations"@) {
                            Some(obs) => match member(obs, index) {
                                Some(v) => Some(json_texts(v)),
                                None => None,
                            },
                            None => None,
                        },
                        None => None,
                    },
                    None => None,
                }
            } else {
                None
            },
            _ => None,
        },
        None => None,
    }
}

proof fn lemma_find_key_decodes<T: FromJson>(
    ms: Seq<(String, Json)>,
    v: Seq<(String, T)>,
    key: Seq<char>,
)
    requires
        v.len() == ms.len(),
        forall|i: int|
            0 <= i < v.len() ==> (#[trigger] v[i]).0@ == ms[i].0@ && T::decodes_to(ms[i].1, v[i].1),
    ensures
        find_key(v, key) is None <==> find_key(ms, key) is None,
        find_key(v, key) matches Some(x) ==> T::decodes_to(find_key(ms, key)->Some_0, x),
    decreases v.len(),
{
    if v.len() > 0 {
        assert(v[0].0@ == ms[0].0@);
        if v[0].0@ != key {
            assert forall|i: int| 0 <= i < v.drop_first().len() implies (
            #[trigger] v.drop_first()[i]).0@ == ms.drop_first()[i].0@ && T::decodes_to(
                ms.drop_first()[i].1,
                v.drop_first()[i].1,
            ) by {
                assert(v[i + 1].0@ == ms[i + 1].0@);
            }
            lemma_find_key_decodes::<T>(ms.drop_first(), v.drop_first(), key);
        }
    }
}

proof fn lemma_texts_decode(j: Json, x: Vec<String>)
    requires
        list_decodes::<String>(j, x@),
    ensures
        texts_view(x@) == json_texts(j),
{
    let a = j->Array_0;
    assert forall|i: int| 0 <= i < x@.len() implies texts_view(x@)[i] == json_texts(j)[i] by {
        assert(String::decodes_to(a@[i], x@[i]));
    }
    assert(texts_view(x@) =~= json_texts(j));
}

/// Reading a response keeps every observation: looking up a series key and an
/// observation index in the decoded response gives the same items as the
/// JSON value holds at that place, and nothing where it holds nothing.
pub proof fn lemma_observation_round_trip(
    j: Json,
    r: ApiResponse,
    dataset: int,
    key: Seq<char>,
    index: Seq<char>,
)
    requires
        ApiResponse::decodes_to(j, r),
    ensures
        r.observation_view(dataset, key, index) == json_observation(j, dataset, key, index),
{
    let data = member(j, "data"@)->Some_0;
    let sets_json = member(data, "dataSets"@)->Some_0;
    let sets = sets_json->Array_0;
    assert(list_decodes::<DataSet>(sets_json, r.data.data_sets@));
    if 0 <= dataset < sets@.len() {
        let ds = r.data.data_sets@[dataset];
        assert(DataSet::decodes_to(sets@[dataset], ds));
        let series_json = member(sets@[dataset], "series"@)->Some_0;
        lemma_find_key_decodes::<Series>(series_json->Object_0@, ds.series@, key);
        if let Some(s) = find_key(ds.series@, key) {
            let sj = find_key(series_json->Object_0@, key)->Some_0;
            let obs_json = member(sj, "observations"@)->Some_0;
            lemma_find_key_decodes::<Vec<String>>(obs_json->Object_0@, s.observations@, index);
            if let Some(v) = find_key(s.observations@, index) {
                lemma_texts_decode(find_key(obs_json->Object_0@, index)->Some_0, v);
            }
        }
    }
}

/// A response whose structure has no `dimensions` member is refused:
/// `decode_response` fails on it rather than give an empty structure.
pub proof fn lemma_missing_dimensions_refused(j: Json)
    requires
        member(j, "data"@) matches Some(data) && member(data, "structure"@) matches Some(st)
            && member(st, "dimensions"@) is None,
    ensures
        !ApiResponse::accepts(j),
{
}

/// A component without a `values` member is read, when the rest of it can be,
/// with an empty list of values.
pub proof fn lemma_missing_values_empty(j: Json, c: Component)
    requires
        member(j, "values"@) is None,
    ensures
        default_list_accepts::<ComponentValue>(j, "values"@),
        Component::decodes_to(j, c) ==> c.values@.len() == 0,
{
}

/// The first component whose slot in the series key is `pos`.
pub open spec fn component_at(cs: Seq<Component>, pos: nat) -> Option<Component>
    decreases cs.len(),
{
    if cs.len() == 0 {
        None
    } else if cs[0].key_position == Some(pos as u32) && pos <= u32::MAX {
        Some(cs[0])
    } else {
        component_at(cs.drop_first(), pos)
    }
}

/// Each index of `ix` names a value of the component at its slot.
pub open spec fn resolves(cs: Seq<Component>, ix: Seq<nat>) -> bool {
    forall|j: int|
        0 <= j < ix.len() ==> ((#[trigger] component_at(cs, j as nat)) matches Some(c) && ix[j]
            < c.values@.len())
}

/// Finds the first component whose slot in the series key is `pos`.
fn component_at_position<'a>(cs: &'a Vec<Component>, pos: usize) -> (r: Option<&'a Component>)
    ensures
        match r {
            Some(c) => component_at(cs@, pos as nat) == Some(*c),
            None => component_at(cs@, pos as nat) is None,
        },
{
    let mut i: usize = 0;
    assert(cs@.subrange(0, cs@.len() as int) =~= cs@);
    while i < cs.len()
        invariant
            i <= cs.len(),
            component_at(cs@, pos as nat) == component_at(
                cs@.subrange(i as int, cs@.len() as int),
                pos as nat,
            ),
        decreases cs.len() - i,
    {
        assert(cs@.subrange(i as int, cs@.len() as int).drop_first() =~= cs@.subrange(
            i + 1,
            cs@.len() as int,
        ));
        if pos <= u32::MAX as usize {
            match cs[i].key_position {
                Some(p) => if p as usize == pos {
                    return Some(&cs[i]);
                },
                None => {},
            }
        }
        i += 1;
    }
    None
}

impl Structure {
    /// Decodes a series key `i0:i1:...:ik`: for each slot `j`, the id of the
    /// series dimension at slot `j` and its value at index `ij`. Nothing where
    /// the key is malformed, a slot has no dimension, or an index is past the
    /// dimension's values.
    pub fn resolve_series_key<'a>(&'a self, key: &str) -> (r: Option<
        Vec<(String, &'a ComponentValue)>,
    >)
        ensures
            match r {
                Some(v) => key_indices(key@) matches Some(ix) && resolves(
                    self.dimensions.series@,
                    ix,
                ) && v@.len() == ix.len() && forall|j: int|
                    0 <= j < v@.len() ==> (component_at(self.dimensions.series@, j as nat) matches Some(
                        c,
                    ) && (#[trigger] v@[j]).0@ == c.id@ && *v@[j].1 == c.values@[ix[j] as int]),
                None => !(key_indices(key@) matches Some(ix) && resolves(
                    self.dimensions.series@,
                    ix,
                )),
            },
    {
        let ix = match series_key_indices(key) {
            Some(ix) => ix,
            None => return None,
        };
        let ghost ixs = ix@.map_values(|x: usize| x as nat);
        let cs = &self.dimensions.series;
        let mut out: Vec<(String, &'a ComponentValue)> = Vec::new();
        let mut j: usize = 0;
        while j < ix.len()
            invariant
                j <= ix.len(),
                ixs == ix@.map_values(|x: usize| x as nat),
                key_indices(key@) == Some(ixs),
                cs@ == self.dimensions.series@,
                out@.len() == j,
                forall|k: int|
                    0 <= k < j ==> ((#[trigger] component_at(cs@, k as nat)) matches Some(c) && ixs[k]
                        < c.values@.len() && out@[k].0@ == c.id@ && *out@[k].1 == c.values@[ixs[k] as int]),
            decreases ix.len() - j,
        {
            match component_at_position(cs, j) {
                Some(c) => {
                    if ix[j] < c.values.len() {
                        out.push((c.id.clone(), &c.values[ix[j]]));
                    } else {
                        assert(!resolves(cs@, ixs)) by {
                            let jj: int = j as int;
                            assert(ixs.len() == ix@.len());
                            assert(ixs[jj] == ix@[jj] as nat);
                            assert(component_at(cs@, jj as nat) == Some(*c));
                        }
                        return None;
                    }
                },
                None => {
                    assert(!resolves(cs@, ixs)) by {
                        let jj: int = j as int;
                        assert(ixs.len() == ix@.len());
                        assert(component_at(cs@, jj as nat) is None);
                    }
                    return None;
                },
            }
            j += 1;
        }
        assert forall|k: int| 0 <= k < out@.len() implies component_at(cs@, k as nat) matches Some(c) && (
        #[trigger] out@[k]).0@ == c.id@ && *out@[k].1 == c.values@[ixs[k] as int] by {
            assert(component_at(cs@, k as nat) is Some);
        }
        Some(out)
    }
}

} // verus!
