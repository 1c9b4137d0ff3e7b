//! The eWON as the M2Web API describes it, the envelope that every response of the
//! API comes in, and their JSON form.

use crate::m2web::json::{
    json_parse, member_of, parse, Category, DecodeError, DecodeErrorView, Json, JsonView,
};
use crate::m2web::text::{decimal, decimal_digits, lemma_decimal_round_trip};
use vstd::prelude::*;

verus! {

/// eWON parameters.
///
/// Each eWON is registered and identified by these parameters.
#[derive(Clone, Debug, PartialEq)]
pub struct Ewon {
    /// The UID of the eWON to the M2Web API.
    pub id: u32,
    /// The unique name of the eWON.
    pub name: String,
    /// The url-encoded name of the eWON.
    pub encoded_name: String,
    /// The status of the eWON, either connected or disconnected.
    pub status: String,
    /// The user description of the eWON.
    pub description: String,
    /// The three user-customized attributes of the eWON.
    pub custom_attributes: [String; 3],
    /// The M2Web VPN server on which the eWON is connected to.
    pub m2web_server: String,
    /// The LAN devices connected to the eWON.
    pub lan_devices: Vec<String>,
    /// The active eWON services.
    pub ewon_services: Vec<String>,
}

/// The mathematical value of an [`Ewon`].
pub struct EwonView {
    pub id: u32,
    pub name: Seq<char>,
    pub encoded_name: Seq<char>,
    pub status: Seq<char>,
    pub description: Seq<char>,
    pub custom_attributes: Seq<Seq<char>>,
    pub m2web_server: Seq<char>,
    pub lan_devices: Seq<Seq<char>>,
    pub ewon_services: Seq<Seq<char>>,
}

impl View for Ewon {
    type V = EwonView;

    open spec fn view(&self) -> EwonView {
        EwonView {
            id: self.id,
            name: self.name@,
            encoded_name: self.encoded_name@,
            status: self.status@,
            description: self.description@,
            custom_attributes: self.custom_attributes.deep_view(),
            m2web_server: self.m2web_server@,
            lan_devices: self.lan_devices.deep_view(),
            ewon_services: self.ewon_services.deep_view(),
        }
    }
}

impl DeepView for Ewon {
    type V = EwonView;

    open spec fn deep_view(&self) -> EwonView {
        self@
    }
}

impl EwonView {
    /// An eWON has three custom attributes.
    pub open spec fn well_formed(self) -> bool {
        self.custom_attributes.len() == 3
    }

    /// The eWON that stands for none: the number zero, and nothing else.
    pub open spec fn blank() -> EwonView {
        EwonView {
            id: 0,
            name: Seq::empty(),
            encoded_name: Seq::empty(),
            status: Seq::empty(),
            description: Seq::empty(),
            custom_attributes: seq![Seq::empty(), Seq::empty(), Seq::empty()],
            m2web_server: Seq::empty(),
            lan_devices: Seq::empty(),
            ewon_services: Seq::empty(),
        }
    }
}

impl Default for Ewon {
    fn default() -> (ewon: Ewon)
        ensures
            ewon@ == EwonView::blank(),
    {
        let ewon = Ewon {
            id: 0,
            name: String::new(),
            encoded_name: String::new(),
            status: String::new(),
            description: String::new(),
            custom_attributes: [String::new(), String::new(), String::new()],
            m2web_server: String::new(),
            lan_devices: Vec::new(),
            ewon_services: Vec::new(),
        };
        assert(ewon@.custom_attributes =~= seq![Seq::empty(), Seq::empty(), Seq::empty()]);
        assert(ewon@.lan_devices =~= Seq::empty());
        assert(ewon@.ewon_services =~= Seq::empty());
        ewon
    }
}

/// Response from the M2Web API.
///
/// Every response of the API comes in this envelope. What a response does not
/// mention is empty here.
#[derive(Debug, PartialEq)]
pub struct ApiResponse {
    /// Indicates if the request succeeded or not.
    pub success: bool,
    /// The eWON, where a specific one was asked for.
    pub ewon: Ewon,
    /// The eWONs, where all of them or those of a pool were asked for.
    pub ewons: Vec<Ewon>,
    /// Session id returned by the API in case of stateful authentication.
    pub t2msession: String,
    /// Message to explain which error just happened.
    pub message: String,
}

/// The mathematical value of an [`ApiResponse`].
pub struct ApiResponseView {
    pub success: bool,
    pub ewon: EwonView,
    pub ewons: Seq<EwonView>,
    pub t2msession: Seq<char>,
    pub message: Seq<char>,
}

impl View for ApiResponse {
    type V = ApiResponseView;

    open spec fn view(&self) -> ApiResponseView {
        ApiResponseView {
            success: self.success,
            ewon: self.ewon@,
            ewons: self.ewons.deep_view(),
            t2msession: self.t2msession@,
            message: self.message@,
        }
    }
}

/// The failure for a member that an object must have and has not.
pub open spec fn missing_field(name: Seq<char>) -> DecodeErrorView {
    DecodeErrorView { category: Category::Data, detail: "missing field `"@ + name + "`"@ }
}

/// The failure for a member that is there and holds something else than expected.
pub open spec fn invalid_field(name: Seq<char>, expected: Seq<char>) -> DecodeErrorView {
    DecodeErrorView {
        category: Category::Data,
        detail: "invalid type for field `"@ + name + "`, expected "@ + expected,
    }
}

/// The failure for a document that should be an object and is not.
pub open spec fn not_an_object() -> DecodeErrorView {
    DecodeErrorView { category: Category::Data, detail: "invalid type, expected an object"@ }
}

/// The flag that an object must hold under a name.
pub open spec fn flag_field(object: JsonView, name: Seq<char>) -> Result<bool, DecodeErrorView> {
    match object.member(name) {
        None => Err(missing_field(name)),
        Some(value) => match value.as_bool() {
            Some(flag) => Ok(flag),
            None => Err(invalid_field(name, "a boolean"@)),
        },
    }
}

/// The number that an object must hold under a name.
pub open spec fn number_field(object: JsonView, name: Seq<char>) -> Result<u32, DecodeErrorView> {
    match object.member(name) {
        None => Err(missing_field(name)),
        Some(value) => match value.as_u32() {
            Some(number) => Ok(number),
            None => Err(invalid_field(name, "an unsigned 32-bit integer"@)),
        },
    }
}

/// The text that an object must hold under a name.
pub open spec fn text_field(object: JsonView, name: Seq<char>) -> Result<
    Seq<char>,
    DecodeErrorView,
> {
    match object.member(name) {
        None => Err(missing_field(name)),
        Some(value) => match value.as_text() {
            Some(text) => Ok(text),
            None => Err(invalid_field(name, "a string"@)),
        },
    }
}

/// The text that an object may hold under a name: empty where it holds none.
pub open spec fn optional_text_field(object: JsonView, name: Seq<char>) -> Result<
    Seq<char>,
    DecodeErrorView,
> {
    match object.member(name) {
        None => Ok(Seq::empty()),
        Some(value) => match value.as_text() {
            Some(text) => Ok(text),
            None => Err(invalid_field(name, "a string"@)),
        },
    }
}

/// The texts that an object must hold under a name.
pub open spec fn texts_field(object: JsonView, name: Seq<char>) -> Result<
    Seq<Seq<char>>,
    DecodeErrorView,
> {
    match object.member(name) {
        None => Err(missing_field(name)),
        Some(value) => match value.as_texts() {
            Some(texts) => Ok(texts),
            None => Err(invalid_field(name, "an array of strings"@)),
        },
    }
}

/// The three texts that an object must hold under a name.
pub open spec fn triple_field(object: JsonView, name: Seq<char>) -> Result<
    Seq<Seq<char>>,
    DecodeErrorView,
> {
    match object.member(name) {
        None => Err(missing_field(name)),
        Some(value) => match value.as_texts() {
            Some(texts) => if texts.len() == 3 {
                Ok(texts)
            } else {
                Err(invalid_field(name, "an array of 3 strings"@))
            },
            None => Err(invalid_field(name, "an array of 3 strings"@)),
        },
    }
}

/// The eWON that a JSON document describes.
///
/// The document must be an object with every member of an eWON, each of its own
/// type; members that an eWON does not have are passed over. The failure is that
/// of the first member, in the order of the fields of [`Ewon`], that is missing or
/// of another type.
pub open spec fn decode_ewon(tree: JsonView) -> Result<EwonView, DecodeErrorView> {
    if !(tree is Object) {
        Err(not_an_object())
    } else {
        match number_field(tree, "id"@) {
            Err(failure) => Err(failure),
            Ok(id) => match text_field(tree, "name"@) {
                Err(failure) => Err(failure),
                Ok(name) => match text_field(tree, "encodedName"@) {
                    Err(failure) => Err(failure),
                    Ok(encoded_name) => match text_field(tree, "status"@) {
                        Err(failure) => Err(failure),
                        Ok(status) => match text_field(tree, "description"@) {
                            Err(failure) => Err(failure),
                            Ok(description) => match triple_field(tree, "customAttributes"@) {
                                Err(failure) => Err(failure),
                                Ok(custom_attributes) => match text_field(tree, "m2webServer"@) {
                                    Err(failure) => Err(failure),
                                    Ok(m2web_server) => match texts_field(tree, "lanDevices"@) {
                                        Err(failure) => Err(failure),
                                        Ok(lan_devices) => match texts_field(
                                            tree,
                                            "ewonServices"@,
                                        ) {
                                            Err(failure) => Err(failure),
                                            Ok(ewon_services) => Ok(
                                                EwonView {
                                                    id,
                                                    name,
                                                    encoded_name,
                                                    status,
                                                    description,
                                                    custom_attributes,
                                                    m2web_server,
                                                    lan_devices,
                                                    ewon_services,
                                                },
                                            ),
                                        },
                                    },
                                },
                            },
                        },
                    },
                },
            },
        }
    }
}

/// The eWONs that a list of JSON documents describes, or the failure of the first
/// document that describes none.
pub open spec fn decode_ewons(items: Seq<JsonView>) -> Result<Seq<EwonView>, DecodeErrorView>
    decreases items.len(),
{
    if items.len() == 0 {
        Ok(Seq::empty())
    } else {
        match decode_ewons(items.drop_last()) {
            Err(failure) => Err(failure),
            Ok(ewons) => match decode_ewon(items.last()) {
                Err(failure) => Err(failure),
                Ok(ewon) => Ok(ewons.push(ewon)),
            },
        }
    }
}

/// The eWON that an object may hold under a name: the blank one where it holds
/// none.
pub open spec fn optional_ewon_field(object: JsonView, name: Seq<char>) -> Result<
    EwonView,
    DecodeErrorView,
> {
    match object.member(name) {
        None => Ok(EwonView::blank()),
        Some(value) => decode_ewon(value),
    }
}

/// The eWONs that an object may hold under a name: none where it holds no such
/// member.
pub open spec fn optional_ewons_field(object: JsonView, name: Seq<char>) -> Result<
    Seq<EwonView>,
    DecodeErrorView,
> {
    match object.member(name) {
        None => Ok(Seq::empty()),
        Some(value) => match value.as_array() {
            Some(items) => decode_ewons(items),
            None => Err(invalid_field(name, "an array"@)),
        },
    }
}

/// The envelope that a JSON document describes.
///
/// The document must be an object with a flag `success`. It may hold an eWON under
/// `ewon`, an array of eWONs under `ewons`, and texts under `t2msession` and
/// `message`; other members are passed over. The failure is that of the first of
/// these members, in this order, that is of another type.
pub open spec fn decode_envelope(tree: JsonView) -> Result<ApiResponseView, DecodeErrorView> {
    if !(tree is Object) {
        Err(not_an_object())
    } else {
        match flag_field(tree, "success"@) {
            Err(failure) => Err(failure),
            Ok(success) => match optional_ewon_field(tree, "ewon"@) {
                Err(failure) => Err(failure),
                Ok(ewon) => match optional_ewons_field(tree, "ewons"@) {
                    Err(failure) => Err(failure),
                    Ok(ewons) => match optional_text_field(tree, "t2msession"@) {
                        Err(failure) => Err(failure),
                        Ok(t2msession) => match optional_text_field(tree, "message"@) {
                            Err(failure) => Err(failure),
                            Ok(message) => Ok(
                                ApiResponseView { success, ewon, ewons, t2msession, message },
                            ),
                        },
                    },
                },
            },
        }
    }
}

/// The envelope that the text of a response describes: the text is parsed as
/// JSON, and the document decoded.
pub open spec fn decode_text(text: Seq<char>) -> Result<ApiResponseView, DecodeErrorView> {
    match json_parse(text) {
        Err(failure) => Err(failure),
        Ok(tree) => decode_envelope(tree),
    }
}

/// Builds the failure for a member that an object must have and has not.
fn missing(name: &str) -> (failure: DecodeError)
    ensures
        failure@ == missing_field(name@),
{
    let mut detail = "missing field `".to_owned();
    detail.append(name);
    detail.append("`");
    DecodeError { category: Category::Data, detail }
}

/// Builds the failure for a member that holds something else than expected.
fn invalid(name: &str, expected: &str) -> (failure: DecodeError)
    ensures
        failure@ == invalid_field(name@, expected@),
{
    let mut detail = "invalid type for field `".to_owned();
    detail.append(name);
    detail.append("`, expected ");
    detail.append(expected);
    DecodeError { category: Category::Data, detail }
}

/// Builds the failure for a document that should be an object and is not.
fn no_object() -> (failure: DecodeError)
    ensures
        failure@ == not_an_object(),
{
    DecodeError { category: Category::Data, detail: "invalid type, expected an object".to_owned() }
}

/// Reads the flag that an object must hold under a name.
fn read_flag(object: &Json, name: &str) -> (flag: Result<bool, DecodeError>)
    ensures
        flag matches Ok(value) ==> flag_field(object@, name@) == Ok::<bool, DecodeErrorView>(value),
        flag matches Err(failure) ==> flag_field(object@, name@) == Err::<bool, DecodeErrorView>(
            failure@,
        ),
{
    match object.member(name) {
        None => Err(missing(name)),
        Some(value) => match value.as_bool() {
            Some(flag) => Ok(flag),
            None => Err(invalid(name, "a boolean")),
        },
    }
}

/// Reads the number that an object must hold under a name.
fn read_number(object: &Json, name: &str) -> (number: Result<u32, DecodeError>)
    ensures
        number matches Ok(value) ==> number_field(object@, name@) == Ok::<u32, DecodeErrorView>(
            value,
        ),
        number matches Err(failure) ==> number_field(object@, name@) == Err::<
            u32,
            DecodeErrorView,
        >(failure@),
{
    match object.member(name) {
        None => Err(missing(name)),
        Some(value) => match value.as_u32() {
            Some(number) => Ok(number),
            None => Err(invalid(name, "an unsigned 32-bit integer")),
        },
    }
}

/// Reads the text that an object must hold under a name.
fn read_text(object: &Json, name: &str) -> (text: Result<String, DecodeError>)
    ensures
        text matches Ok(value) ==> text_field(object@, name@) == Ok::<Seq<char>, DecodeErrorView>(
            value@,
        ),
        text matches Err(failure) ==> text_field(object@, name@) == Err::<
            Seq<char>,
            DecodeErrorView,
        >(failure@),
{
    match object.member(name) {
        None => Err(missing(name)),
        Some(value) => match value.as_text() {
            Some(text) => Ok(text.to_owned()),
            None => Err(invalid(name, "a string")),
        },
    }
}

/// Reads the text that an object may hold under a name.
fn read_optional_text(object: &Json, name: &str) -> (text: Result<String, DecodeError>)
    ensures
        text matches Ok(value) ==> optional_text_field(object@, name@) == Ok::<
            Seq<char>,
            DecodeErrorView,
        >(value@),
        text matches Err(failure) ==> optional_text_field(object@, name@) == Err::<
            Seq<char>,
            DecodeErrorView,
        >(failure@),
{
    match object.member(name) {
        None => Ok(String::new()),
        Some(value) => match value.as_text() {
            Some(text) => Ok(text.to_owned()),
            None => Err(invalid(name, "a string")),
        },
    }
}

/// Reads the texts that an object must hold under a name.
fn read_texts(object: &Json, name: &str) -> (texts: Result<Vec<String>, DecodeError>)
    ensures
        texts matches Ok(value) ==> texts_field(object@, name@) == Ok::<
            Seq<Seq<char>>,
            DecodeErrorView,
        >(value.deep_view()),
        texts matches Err(failure) ==> texts_field(object@, name@) == Err::<
            Seq<Seq<char>>,
            DecodeErrorView,
        >(failure@),
{
    match object.member(name) {
        None => Err(missing(name)),
        Some(value) => match value.as_texts() {
            Some(texts) => Ok(texts),
            None => Err(invalid(name, "an array of strings")),
        },
    }
}

/// Reads the three texts that an object must hold under a name.
fn read_triple(object: &Json, name: &str) -> (texts: Result<[String; 3], DecodeError>)
    ensures
        texts matches Ok(value) ==> triple_field(object@, name@) == Ok::<
            Seq<Seq<char>>,
            DecodeErrorView,
        >(value.deep_view()),
        texts matches Err(failure) ==> triple_field(object@, name@) == Err::<
            Seq<Seq<char>>,
            DecodeErrorView,
        >(failure@),
{
    match object.member(name) {
        None => Err(missing(name)),
        Some(value) => match value.as_texts() {
            Some(texts) => {
                if texts.len() == 3 {
                    let triple = [texts[0].clone(), texts[1].clone(), texts[2].clone()];
                    assert(triple.deep_view() =~= texts.deep_view());
                    Ok(triple)
                } else {
                    Err(invalid(name, "an array of 3 strings"))
                }
            },
            None => Err(invalid(name, "an array of 3 strings")),
        },
    }
}

impl Ewon {
    /// Decodes an eWON from its JSON form.
    pub fn from_json(tree: &Json) -> (decoded: Result<Ewon, DecodeError>)
        ensures
            decoded matches Ok(ewon) ==> decode_ewon(tree@) == Ok::<EwonView, DecodeErrorView>(
                ewon@,
            ),
            decoded matches Err(failure) ==> decode_ewon(tree@) == Err::<
                EwonView,
                DecodeErrorView,
            >(failure@),
    {
        if !tree.is_object() {
            return Err(no_object());
        }
        let id = read_number(tree, "id")?;
        let name = read_text(tree, "name")?;
        let encoded_name = read_text(tree, "encodedName")?;
        let status = read_text(tree, "status")?;
        let description = read_text(tree, "description")?;
        let custom_attributes = read_triple(tree, "customAttributes")?;
        let m2web_server = read_text(tree, "m2webServer")?;
        let lan_devices = read_texts(tree, "lanDevices")?;
        let ewon_services = read_texts(tree, "ewonServices")?;
        Ok(
            Ewon {
                id,
                name,
                encoded_name,
                status,
                description,
                custom_attributes,
                m2web_server,
                lan_devices,
                ewon_services,
            },
        )
    }
}

/// Reads the eWON that an object may hold under a name.
fn read_optional_ewon(object: &Json, name: &str) -> (ewon: Result<Ewon, DecodeError>)
    ensures
        ewon matches Ok(value) ==> optional_ewon_field(object@, name@) == Ok::<
            EwonView,
            DecodeErrorView,
        >(value@),
        ewon matches Err(failure) ==> optional_ewon_field(object@, name@) == Err::<
            EwonView,
            DecodeErrorView,
        >(failure@),
{
    match object.member(name) {
        None => Ok(Ewon::default()),
        Some(value) => Ewon::from_json(value),
    }
}

/// Reads the eWONs that an object may hold under a name.
fn read_optional_ewons(object: &Json, name: &str) -> (ewons: Result<Vec<Ewon>, DecodeError>)
    ensures
        ewons matches Ok(value) ==> optional_ewons_field(object@, name@) == Ok::<
            Seq<EwonView>,
            DecodeErrorView,
        >(value.deep_view()),
        ewons matches Err(failure) ==> optional_ewons_field(object@, name@) == Err::<
            Seq<EwonView>,
            DecodeErrorView,
        >(failure@),
{
    match object.member(name) {
        None => {
            let ewons: Vec<Ewon> = Vec::new();
            assert(ewons.deep_view() =~= Seq::empty());
            Ok(ewons)
        },
        Some(value) => match value.as_array() {
            None => Err(invalid(name, "an array")),
            Some(items) => {
                let ghost all = items.deep_view();
                let mut ewons: Vec<Ewon> = Vec::new();
                let mut i: usize = 0;
                assert(ewons.deep_view() =~= Seq::empty());
                while i < items.len()
                    invariant
                        i <= items@.len(),
                        all == items.deep_view(),
                        optional_ewons_field(object@, name@) == decode_ewons(all),
                        decode_ewons(all.take(i as int)) == Ok::<Seq<EwonView>, DecodeErrorView>(
                            ewons.deep_view(),
                        ),
                    decreases items@.len() - i,
                {
                    let ghost before = ewons.deep_view();
                    proof {
                        assert(all.take(i as int + 1).drop_last() =~= all.take(i as int));
                        assert(all.take(i as int + 1).last() == items@[i as int]@);
                    }
                    match Ewon::from_json(&items[i]) {
                        Ok(ewon) => {
                            ewons.push(ewon);
                            assert(ewons.deep_view() =~= before.push(ewon@));
                        },
                        Err(failure) => {
                            proof {
                                assert(decode_ewons(all.take(i as int + 1)) is Err);
                                lemma_decode_ewons_failure(all, i as int + 1);
                            }
                            return Err(failure);
                        },
                    }
                    i += 1;
                }
                assert(all.take(i as int) =~= all);
                Ok(ewons)
            },
        },
    }
}

/// Where the first part of a list of documents fails to decode, the whole list
/// fails in the same way.
proof fn lemma_decode_ewons_failure(items: Seq<JsonView>, len: int)
    requires
        0 <= len <= items.len(),
        decode_ewons(items.take(len)) is Err,
    ensures
        decode_ewons(items) == decode_ewons(items.take(len)),
    decreases items.len(),
{
    if len == items.len() {
        assert(items.take(len) =~= items);
    } else {
        assert(items.drop_last().take(len) =~= items.take(len));
        lemma_decode_ewons_failure(items.drop_last(), len);
    }
}

impl ApiResponse {
    /// Decodes an envelope from its JSON form.
    pub fn from_json(tree: &Json) -> (decoded: Result<ApiResponse, DecodeError>)
        ensures
            decoded matches Ok(response) ==> decode_envelope(tree@) == Ok::<
                ApiResponseView,
                DecodeErrorView,
            >(response@),
            decoded matches Err(failure) ==> decode_envelope(tree@) == Err::<
                ApiResponseView,
                DecodeErrorView,
            >(failure@),
    {
        if !tree.is_object() {
            return Err(no_object());
        }
        let success = read_flag(tree, "success")?;
        let ewon = read_optional_ewon(tree, "ewon")?;
        let ewons = read_optional_ewons(tree, "ewons")?;
        let t2msession = read_optional_text(tree, "t2msession")?;
        let message = read_optional_text(tree, "message")?;
        Ok(ApiResponse { success, ewon, ewons, t2msession, message })
    }

    /// Decodes an envelope from the text of a response.
    pub fn decode(text: &str) -> (decoded: Result<ApiResponse, DecodeError>)
        ensures
            decoded matches Ok(response) ==> decode_text(text@) == Ok::<
                ApiResponseView,
                DecodeErrorView,
            >(response@),
            decoded matches Err(failure) ==> decode_text(text@) == Err::<
                ApiResponseView,
                DecodeErrorView,
            >(failure@),
    {
        match parse(text) {
            Err(failure) => Err(failure),
            Ok(tree) => ApiResponse::from_json(&tree),
        }
    }
}

/// The JSON form of a list of texts: an array of strings.
pub open spec fn encode_texts(texts: Seq<Seq<char>>) -> JsonView {
    JsonView::Array(Seq::new(texts.len(), |i: int| JsonView::Text(texts[i])))
}

/// The JSON form of an eWON: an object with one member for each field, in the
/// order of the fields and under the names that the M2Web API gives them.
pub open spec fn encode_ewon(ewon: EwonView) -> JsonView {
    JsonView::Object(
        seq![
            ("id"@, JsonView::Number(decimal_digits(ewon.id as nat))),
            ("name"@, JsonView::Text(ewon.name)),
            ("encodedName"@, JsonView::Text(ewon.encoded_name)),
            ("status"@, JsonView::Text(ewon.status)),
            ("description"@, JsonView::Text(ewon.description)),
            ("customAttributes"@, encode_texts(ewon.custom_attributes)),
            ("m2webServer"@, JsonView::Text(ewon.m2web_server)),
            ("lanDevices"@, encode_texts(ewon.lan_devices)),
            ("ewonServices"@, encode_texts(ewon.ewon_services)),
        ],
    )
}

/// Writes a list of texts as a JSON array of strings.
fn texts_to_json(texts: &[String]) -> (tree: Json)
    ensures
        tree@ == encode_texts(texts.deep_view()),
{
    let mut items: Vec<Json> = Vec::new();
    let mut i: usize = 0;
    while i < texts.len()
        invariant
            i <= texts@.len(),
            items@.len() == i,
            forall|k: int| 0 <= k < i ==> (#[trigger] items@[k])@ == JsonView::Text(texts@[k]@),
        decreases texts@.len() - i,
    {
        items.push(Json::Text(texts[i].clone()));
        i += 1;
    }
    let tree = Json::Array(items);
    assert(tree@->Array_0 =~= encode_texts(texts.deep_view())->Array_0);
    tree
}

impl Ewon {
    /// Writes the eWON in its JSON form.
    pub fn to_json(&self) -> (tree: Json)
        ensures
            tree@ == encode_ewon(self@),
    {
        let mut members: Vec<(String, Json)> = Vec::new();
        members.push(("id".to_owned(), Json::Number(decimal(self.id))));
        members.push(("name".to_owned(), Json::Text(self.name.clone())));
        members.push(("encodedName".to_owned(), Json::Text(self.encoded_name.clone())));
        members.push(("status".to_owned(), Json::Text(self.status.clone())));
        members.push(("description".to_owned(), Json::Text(self.description.clone())));
        members.push(
            ("customAttributes".to_owned(), texts_to_json(self.custom_attributes.as_slice())),
        );
        members.push(("m2webServer".to_owned(), Json::Text(self.m2web_server.clone())));
        members.push(("lanDevices".to_owned(), texts_to_json(self.lan_devices.as_slice())));
        members.push(("ewonServices".to_owned(), texts_to_json(self.ewon_services.as_slice())));
        let ghost wire = encode_ewon(self@)->Object_0;
        assert(members@.len() == 9);
        assert((members@[0].0@, members@[0].1@) == wire[0]);
        assert((members@[1].0@, members@[1].1@) == wire[1]);
        assert((members@[2].0@, members@[2].1@) == wire[2]);
        assert((members@[3].0@, members@[3].1@) == wire[3]);
        assert((members@[4].0@, members@[4].1@) == wire[4]);
        assert((members@[5].0@, members@[5].1@) == wire[5]);
        assert((members@[6].0@, members@[6].1@) == wire[6]);
        assert((members@[7].0@, members@[7].1@) == wire[7]);
        assert((members@[8].0@, members@[8].1@) == wire[8]);
        let tree = Json::Object(members);
        assert(tree@->Object_0 =~= wire);
        tree
    }
}

/// The names of the members of an eWON, in the order of its fields.
pub open spec fn ewon_members() -> Seq<Seq<char>> {
    seq![
        "id"@,
        "name"@,
        "encodedName"@,
        "status"@,
        "description"@,
        "customAttributes"@,
        "m2webServer"@,
        "lanDevices"@,
        "ewonServices"@,
    ]
}

/// What is wrong with what was read, if anything.
pub open spec fn fault<T>(read: Result<T, DecodeErrorView>) -> Option<DecodeErrorView> {
    match read {
        Ok(_) => None,
        Err(failure) => Some(failure),
    }
}

/// What is wrong with each member of an eWON in a document, in the order of
/// [`ewon_members`]: nothing, where the member is there and of its type.
pub open spec fn ewon_faults(tree: JsonView) -> Seq<Option<DecodeErrorView>> {
    seq![
        fault(number_field(tree, "id"@)),
        fault(text_field(tree, "name"@)),
        fault(text_field(tree, "encodedName"@)),
        fault(text_field(tree, "status"@)),
        fault(text_field(tree, "description"@)),
        fault(triple_field(tree, "customAttributes"@)),
        fault(text_field(tree, "m2webServer"@)),
        fault(texts_field(tree, "lanDevices"@)),
        fault(texts_field(tree, "ewonServices"@)),
    ]
}

/// A member that is missing is a fault, and the fault names the member.
pub proof fn lemma_missing_member_is_a_fault(tree: JsonView, i: int)
    requires
        0 <= i < 9,
        tree.member(ewon_members()[i]) is None,
    ensures
        ewon_faults(tree)[i] == Some(missing_field(ewon_members()[i])),
{
}

/// An object describes an eWON exactly when none of the members of an eWON is
/// at fault in it. Where one is, the failure is the fault of the first such
/// member: a missing member is named, unless a member before it is at fault
/// too.
pub proof fn lemma_first_fault_decides(tree: JsonView, i: int)
    requires
        tree is Object,
        0 <= i < 9,
    ensures
        ewon_faults(tree)[i] is Some ==> decode_ewon(tree) is Err,
        ewon_faults(tree)[i] is Some && (forall|j: int| 0 <= j < i ==> ewon_faults(tree)[j] is None)
            ==> decode_ewon(tree) == Err::<EwonView, DecodeErrorView>(ewon_faults(tree)[i]->Some_0),
        (forall|j: int| 0 <= j < 9 ==> ewon_faults(tree)[j] is None) ==> decode_ewon(tree) is Ok,
{
    let faults = ewon_faults(tree);
    assert(faults[0] is None || faults[0] is Some);
    assert(faults[1] is None || faults[1] is Some);
    assert(faults[2] is None || faults[2] is Some);
    assert(faults[3] is None || faults[3] is Some);
    assert(faults[4] is None || faults[4] is Some);
    assert(faults[5] is None || faults[5] is Some);
    assert(faults[6] is None || faults[6] is Some);
    assert(faults[7] is None || faults[7] is Some);
    assert(faults[8] is None || faults[8] is Some);
}

/// Every eWON has three custom attributes, whether it was built by hand or read
/// from JSON.
pub proof fn lemma_ewons_are_well_formed(ewon: Ewon, tree: JsonView)
    ensures
        ewon@.well_formed(),
        EwonView::blank().well_formed(),
        decode_ewon(tree) matches Ok(decoded) ==> decoded.well_formed(),
{
}

/// A list of texts written as JSON and read back is the same list.
pub proof fn lemma_texts_round_trip(texts: Seq<Seq<char>>)
    ensures
        encode_texts(texts).as_texts() == Some(texts),
    decreases texts.len(),
{
    let items = encode_texts(texts)->Array_0;
    if texts.len() == 0 {
        assert(texts =~= Seq::empty());
    } else {
        lemma_texts_round_trip(texts.drop_last());
        assert(encode_texts(texts.drop_last())->Array_0 =~= items.drop_last());
        assert(texts =~= texts.drop_last().push(texts.last()));
    }
}

/// An eWON written as JSON and read back is the same eWON, field for field.
pub proof fn lemma_ewon_round_trip(ewon: EwonView)
    requires
        ewon.well_formed(),
    ensures
        decode_ewon(encode_ewon(ewon)) == Ok::<EwonView, DecodeErrorView>(ewon),
{
    let tree = encode_ewon(ewon);
    let members = tree->Object_0;
    reveal_strlit("id");
    reveal_strlit("name");
    reveal_strlit("encodedName");
    reveal_strlit("status");
    reveal_strlit("description");
    reveal_strlit("customAttributes");
    reveal_strlit("m2webServer");
    reveal_strlit("lanDevices");
    reveal_strlit("ewonServices");
    reveal_with_fuel(member_of, 10);
    lemma_decimal_round_trip(ewon.id as nat);
    lemma_texts_round_trip(ewon.custom_attributes);
    lemma_texts_round_trip(ewon.lan_devices);
    lemma_texts_round_trip(ewon.ewon_services);
    assert("encodedName"@[0] == 'e' && "description"@[0] == 'd' && "m2webServer"@[0] == 'm');
    assert("lanDevices"@[0] == 'l' && "ewonServices"@[0] == 'e');
    assert(tree.member("id"@) == Some(members[0].1));
    assert(tree.member("name"@) == Some(members[1].1));
    assert(tree.member("encodedName"@) == Some(members[2].1));
    assert(tree.member("status"@) == Some(members[3].1));
    assert(tree.member("description"@) == Some(members[4].1));
    assert(tree.member("customAttributes"@) == Some(members[5].1));
    assert(tree.member("m2webServer"@) == Some(members[6].1));
    assert(tree.member("lanDevices"@) == Some(members[7].1));
    assert(tree.member("ewonServices"@) == Some(members[8].1));
}

} // verus!
