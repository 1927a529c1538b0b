//! The checks that the parameters of a query or of a statement must pass.

use vstd::prelude::*;
use crate::convert::driver_value;
use crate::error::{ExecErrorModel, PreparedStatementExecError, QueryError, QueryErrorModel};
use crate::text::{decimal, push_decimal};
use crate::validate::{
    accepted, column_type_text, kind_index, validate_mysql_value_for_column_type, wkb,
    TypeMismatch,
};
use crate::value::{
    driver_values, values, ColumnType, DriverModel, DriverValue, MysqlValue, ValueModel,
};

verus! {

/// The parsed form of a JSON text, of serde_json, carried without looking inside.
#[verifier::external_type_specification]
#[verifier::external_body]
pub struct ExJsonValue(serde_json::Value);

/// The error of serde_json, carried without looking inside.
#[verifier::external_type_specification]
#[verifier::external_body]
pub struct ExJsonError(serde_json::Error);

/// Whether serde_json reads a text as a JSON value.
pub uninterp spec fn is_json(text: Seq<char>) -> bool;

/// `serde_json::from_str` for `serde_json::Value`. Whether it succeeds depends on the text alone.
/// Nothing is said of the parsed value, nor of the error.
#[verifier::external_body]
fn parse_json(text: &str) -> (r: Result<serde_json::Value, serde_json::Error>)
    ensures
        r is Ok <==> is_json(text@),
{
    serde_json::from_str::<serde_json::Value>(text)
}

/// A text that is not JSON.
#[derive(Debug, PartialEq, Eq)]
pub struct InvalidJson {
    pub json: String,
}

/// The words in which a text that is not JSON is reported.
pub open spec fn invalid_json_text(json: Seq<char>) -> Seq<char> {
    "Invalid JSON string: "@ + json
}

impl InvalidJson {
    /// The words in which the text is reported.
    pub fn message(&self) -> (r: String)
        ensures
            r@ == invalid_json_text(self.json@),
    {
        let mut text: String = "Invalid JSON string: ".to_owned();
        text.append(self.json.as_str());
        text
    }
}

/// The answer for a text of which it is known whether it is JSON.
pub fn json_verdict(json_str: &str, valid: bool) -> (r: Result<(), InvalidJson>)
    ensures
        r is Ok <==> valid,
        r matches Err(e) ==> e.json@ == json_str@,
{
    if valid {
        Ok(())
    } else {
        Err(InvalidJson { json: json_str.to_owned() })
    }
}

/// JSON validation helper.
pub fn validate_json_string(json_str: &str) -> (r: Result<(), InvalidJson>)
    ensures
        r is Ok <==> is_json(json_str@),
        r matches Err(e) ==> e.json@ == json_str@,
{
    let valid: bool = parse_json(json_str).is_ok();
    json_verdict(json_str, valid)
}

/// The fewest bytes of well-known binary: a byte order and a geometry type.
pub const MIN_WKB_LEN: usize = 5;

/// Basic WKB validation: it must have at least 5 bytes (byte order + geometry type).
pub fn is_valid_wkb(wkb: &[u8]) -> (valid: bool)
    ensures
        valid == (wkb@.len() >= MIN_WKB_LEN),
{
    wkb.len() >= MIN_WKB_LEN
}

/// What is wrong with a parameter, if anything: text that should be JSON and is not, or a
/// geometry that is too short. `json_valid` says whether the text of a JSON parameter is JSON.
pub open spec fn param_fault(param: ValueModel, json_valid: bool) -> Option<Seq<char>> {
    if let ValueModel::Json(text) = param {
        if json_valid {
            None
        } else {
            Some("Invalid JSON parameter: "@ + invalid_json_text(text))
        }
    } else if wkb(param) is Some && wkb(param)->0.len() < MIN_WKB_LEN {
        Some("Invalid WKB geometry data"@)
    } else {
        None
    }
}

/// What is wrong with the first parameter that something is wrong with, if there is one.
pub open spec fn first_fault(params: Seq<ValueModel>, json_valid: Seq<bool>) -> Option<Seq<char>>
    decreases params.len(),
{
    if params.len() == 0 {
        None
    } else {
        match first_fault(params.drop_last(), json_valid) {
            Some(fault) => Some(fault),
            None => param_fault(params.last(), json_valid[params.len() - 1]),
        }
    }
}

/// Whether serde_json reads the text of a JSON parameter as a JSON value.
pub open spec fn json_flag(param: ValueModel) -> bool {
    match param {
        ValueModel::Json(text) => is_json(text),
        _ => true,
    }
}

/// [`json_flag`] of every parameter.
pub open spec fn json_flags(params: Seq<ValueModel>) -> Seq<bool> {
    params.map_values(|v: ValueModel| json_flag(v))
}

/// A fault, with its words taken as a sequence.
pub open spec fn fault_text(fault: Option<String>) -> Option<Seq<char>> {
    match fault {
        Some(text) => Some(text@),
        None => None,
    }
}

/// What is wrong with one parameter.
pub fn find_param_fault(param: &MysqlValue, json_valid: bool) -> (fault: Option<String>)
    ensures
        fault_text(fault) == param_fault(param@, json_valid),
{
    match param {
        MysqlValue::Json(json_str) => match json_verdict(json_str.as_str(), json_valid) {
            Ok(_) => None,
            Err(e) => {
                let mut text: String = "Invalid JSON parameter: ".to_owned();
                let reason: String = e.message();
                text.append(reason.as_str());
                Some(text)
            },
        },
        MysqlValue::Geometry(wkb)
        | MysqlValue::PointGeom(wkb)
        | MysqlValue::Linestring(wkb)
        | MysqlValue::Polygon(wkb)
        | MysqlValue::Multipoint(wkb)
        | MysqlValue::Multilinestring(wkb)
        | MysqlValue::Multipolygon(wkb)
        | MysqlValue::Geometrycollection(wkb) => if !is_valid_wkb(wkb.as_slice()) {
            Some("Invalid WKB geometry data".to_owned())
        } else {
            None
        },
        _ => None,
    }
}

/// What is wrong with the first faulty parameter, given for each whether its text is JSON.
pub fn find_first_fault(params: &Vec<MysqlValue>, json_valid: &Vec<bool>) -> (fault: Option<String>)
    requires
        params@.len() == json_valid@.len(),
    ensures
        fault_text(fault) == first_fault(values(params@), json_valid@),
{
    let ghost all = values(params@);
    for i in 0..params.len()
        invariant
            params@.len() == json_valid@.len(),
            all == values(params@),
            first_fault(all.take(i as int), json_valid@) is None,
    {
        let ghost longer = all.take(i + 1);
        assert(longer.drop_last() =~= all.take(i as int));
        assert(longer.last() == params@[i as int]@);
        let fault: Option<String> = find_param_fault(&params[i], json_valid[i]);
        if fault.is_some() {
            proof {
                lemma_first_fault_stays(all, json_valid@, i + 1);
            }
            return fault;
        }
    }
    assert(all.take(all.len() as int) =~= all);
    None
}

/// Later parameters do not change what is wrong first.
proof fn lemma_first_fault_stays(params: Seq<ValueModel>, json_valid: Seq<bool>, n: int)
    requires
        0 <= n <= params.len(),
        first_fault(params.take(n), json_valid) is Some,
    ensures
        first_fault(params, json_valid) == first_fault(params.take(n), json_valid),
    decreases params.len() - n,
{
    if n == params.len() {
        assert(params.take(n) =~= params);
    } else {
        assert(params.take(n + 1).drop_last() =~= params.take(n));
        lemma_first_fault_stays(params, json_valid, n + 1);
    }
}

/// What is wrong with the first faulty parameter of a query or statement, if there is one.
pub fn find_fault(params: &Vec<MysqlValue>) -> (fault: Option<String>)
    ensures
        fault_text(fault) == first_fault(values(params@), json_flags(values(params@))),
{
    let mut json_valid: Vec<bool> = Vec::new();
    for i in 0..params.len()
        invariant
            json_valid@ =~= json_flags(values(params@)).take(i as int),
    {
        let flag: bool = match &params[i] {
            MysqlValue::Json(json_str) => validate_json_string(json_str.as_str()).is_ok(),
            _ => true,
        };
        assert(flag == json_flag(params@[i as int]@));
        json_valid.push(flag);
    }
    assert(json_valid@ =~= json_flags(values(params@)));
    find_first_fault(params, &json_valid)
}

/// The driver's form of every parameter, in order.
pub open spec fn driver_params(params: Seq<ValueModel>) -> Seq<DriverModel> {
    params.map_values(|v: ValueModel| driver_value(v))
}

/// The driver's form of every parameter, in order.
pub fn to_driver_params(params: Vec<MysqlValue>) -> (r: Vec<DriverValue>)
    ensures
        driver_values(r@) == driver_params(values(params@)),
{
    let mut converted: Vec<DriverValue> = Vec::new();
    let ghost all = params@;
    for param in iter: params
        invariant
            iter.seq() == all,
            driver_values(converted@) =~= driver_params(values(all)).take(iter.index()),
    {
        let ghost before = converted@;
        converted.push(DriverValue::from_value(param));
        assert(driver_values(converted@) =~= driver_values(before).push(driver_value(param@)));
    }
    assert(driver_values(converted@) =~= driver_params(values(all)));
    converted
}

/// What is reported when a statement is given a wrong number of parameters.
pub open spec fn count_mismatch_text(expected: nat, got: nat) -> Seq<char> {
    "Parameter count mismatch: expected "@ + decimal(expected) + ", got "@ + decimal(got)
}

/// What is reported when the parameter at `position`, counted from one, has a wrong type.
pub open spec fn type_fault_text(position: nat, mismatch: TypeMismatch) -> Seq<char> {
    "Parameter "@ + decimal(position) + " type validation failed: "@ + mismatch.text()
}

/// What is wrong with the number of parameters of a statement or, if nothing is, with the type of
/// the first of them that has a wrong one.
pub open spec fn statement_fault(params: Seq<ValueModel>, param_types: Seq<ColumnType>) -> Option<
    Seq<char>,
> {
    if params.len() != param_types.len() {
        Some(count_mismatch_text(param_types.len(), params.len()))
    } else {
        first_type_fault(params, param_types)
    }
}

/// What is wrong with the type of the first parameter that has a wrong one.
pub open spec fn first_type_fault(
    params: Seq<ValueModel>,
    param_types: Seq<ColumnType>,
) -> Option<Seq<char>>
    decreases params.len(),
{
    if params.len() == 0 {
        None
    } else {
        let n = (params.len() - 1) as nat;
        match first_type_fault(params.drop_last(), param_types) {
            Some(fault) => Some(fault),
            None => if accepted(params.last(), param_types[n as int]) {
                None
            } else {
                Some(
                    type_fault_text(
                        n + 1,
                        TypeMismatch {
                            kind: kind_index(params.last()) as usize,
                            expected: param_types[n as int],
                        },
                    ),
                )
            },
        }
    }
}

/// Later parameters do not change which type is wrong first.
proof fn lemma_first_type_fault_stays(
    params: Seq<ValueModel>,
    param_types: Seq<ColumnType>,
    n: int,
)
    requires
        0 <= n <= params.len(),
        first_type_fault(params.take(n), param_types) is Some,
    ensures
        first_type_fault(params, param_types) == first_type_fault(params.take(n), param_types),
    decreases params.len() - n,
{
    if n == params.len() {
        assert(params.take(n) =~= params);
    } else {
        assert(params.take(n + 1).drop_last() =~= params.take(n));
        lemma_first_type_fault_stays(params, param_types, n + 1);
    }
}

/// What is wrong with the number or the types of the parameters of a statement, if anything.
pub fn find_statement_fault(params: &Vec<MysqlValue>, param_types: &Vec<ColumnType>) -> (fault:
    Option<String>)
    ensures
        fault_text(fault) == statement_fault(values(params@), param_types@),
{
    if params.len() != param_types.len() {
        let mut text: String = "Parameter count mismatch: expected ".to_owned();
        push_decimal(&mut text, param_types.len());
        text.append(", got ");
        push_decimal(&mut text, params.len());
        return Some(text);
    }
    let ghost all = values(params@);
    for i in 0..params.len()
        invariant
            params@.len() == param_types@.len(),
            all == values(params@),
            first_type_fault(all.take(i as int), param_types@) is None,
    {
        let ghost longer = all.take(i + 1);
        assert(longer.drop_last() =~= all.take(i as int));
        assert(longer.last() == params@[i as int]@);
        if let Err(e) = validate_mysql_value_for_column_type(&params[i], param_types[i]) {
            let mut text: String = "Parameter ".to_owned();
            push_decimal(&mut text, i + 1);
            text.append(" type validation failed: ");
            let reason: String = e.message();
            text.append(reason.as_str());
            proof {
                lemma_first_type_fault_stays(all, param_types@, i + 1);
            }
            return Some(text);
        }
    }
    assert(all.take(all.len() as int) =~= all);
    None
}

/// The parameters of a statement in the driver's form, once their number and types are checked
/// against those that the server asks for.
pub fn check_statement_params(params: Vec<MysqlValue>, param_types: &Vec<ColumnType>) -> (r: Result<
    Vec<DriverValue>,
    PreparedStatementExecError,
>)
    ensures
        match statement_fault(values(params@), param_types@) {
            Some(fault) => r matches Err(e) && e@ == ExecErrorModel::QueryError(
                QueryErrorModel::InvalidParams(fault),
            ),
            None => r matches Ok(converted) && driver_values(converted@) == driver_params(
                values(params@),
            ),
        },
{
    match find_statement_fault(&params, param_types) {
        Some(fault) => Err(
            PreparedStatementExecError::QueryError(QueryError::InvalidParams(fault)),
        ),
        None => Ok(to_driver_params(params)),
    }
}

/// Parameters have no fault if and only if no single one has; otherwise the fault is that of the
/// first one that has one.
pub proof fn law_first_fault(params: Seq<ValueModel>, json_valid: Seq<bool>)
    ensures
        first_fault(params, json_valid) is None <==> forall|i: int|
            0 <= i < params.len() ==> #[trigger] param_fault(params[i], json_valid[i]) is None,
        first_fault(params, json_valid) is Some ==> exists|i: int|
            {
                &&& 0 <= i < params.len()
                &&& #[trigger] param_fault(params[i], json_valid[i]) == first_fault(
                    params,
                    json_valid,
                )
                &&& forall|j: int|
                    0 <= j < i ==> #[trigger] param_fault(params[j], json_valid[j]) is None
            },
    decreases params.len(),
{
    if params.len() > 0 {
        let front = params.drop_last();
        let n = params.len() - 1;
        law_first_fault(front, json_valid);
        assert(params.last() == params[n]);
        assert forall|i: int| 0 <= i < n implies #[trigger] param_fault(params[i], json_valid[i])
            == param_fault(front[i], json_valid[i]) by {}
        if first_fault(front, json_valid) is Some {
            let i = choose|i: int|
                {
                    &&& 0 <= i < front.len()
                    &&& #[trigger] param_fault(front[i], json_valid[i]) == first_fault(
                        front,
                        json_valid,
                    )
                    &&& forall|j: int|
                        0 <= j < i ==> #[trigger] param_fault(front[j], json_valid[j]) is None
                };
            assert(param_fault(params[i], json_valid[i]) is Some);
        } else {
            assert(param_fault(params[n], json_valid[n]) == first_fault(params, json_valid));
        }
    }
}

/// The parameters of a statement have no fault if and only if there are as many as the server asks
/// for and each may be used for the type that is asked for in its place.
pub proof fn law_statement_fault(params: Seq<ValueModel>, param_types: Seq<ColumnType>)
    ensures
        statement_fault(params, param_types) is None <==> {
            &&& params.len() == param_types.len()
            &&& forall|i: int|
                0 <= i < params.len() ==> #[trigger] accepted(params[i], param_types[i])
        },
{
    lemma_first_type_fault(params, param_types);
}

/// No type is wrong if and only if every parameter may be used for the type in its place.
proof fn lemma_first_type_fault(params: Seq<ValueModel>, param_types: Seq<ColumnType>)
    ensures
        first_type_fault(params, param_types) is None <==> forall|i: int|
            0 <= i < params.len() ==> #[trigger] accepted(params[i], param_types[i]),
    decreases params.len(),
{
    if params.len() > 0 {
        let front = params.drop_last();
        lemma_first_type_fault(front, param_types);
        assert(params.last() == params[params.len() - 1]);
        assert forall|i: int| 0 <= i < front.len() implies #[trigger] accepted(
            params[i],
            param_types[i],
        ) == accepted(front[i], param_types[i]) by {}
        assert(first_type_fault(params, param_types) is None ==> accepted(
            params[params.len() - 1],
            param_types[params.len() - 1],
        ));
    }
}

/// Whether a parameter may be sent to the server: JSON must be such to serde_json, and a geometry
/// must have five bytes.
pub open spec fn sound(param: MysqlValue) -> bool {
    match param {
        MysqlValue::Json(text) => is_json(text@),
        MysqlValue::Geometry(b)
        | MysqlValue::PointGeom(b)
        | MysqlValue::Linestring(b)
        | MysqlValue::Polygon(b)
        | MysqlValue::Multipoint(b)
        | MysqlValue::Multilinestring(b)
        | MysqlValue::Multipolygon(b)
        | MysqlValue::Geometrycollection(b) => b@.len() >= 5,
        _ => true,
    }
}

/// The one thing that can be wrong with a text is that it is not JSON where it should be, and the
/// text is then reported. The one thing that can be wrong with bytes is a geometry of less than
/// five. Nothing is ever wrong with other values.
pub proof fn law_fault_of_a_parameter(param: MysqlValue, json_valid: bool, fault: Option<String>)
    requires
        fault_text(fault) == param_fault(param@, json_valid),
    ensures
        match param {
            MysqlValue::Json(json) => match fault {
                Some(text) => !json_valid && text@
                    == "Invalid JSON parameter: Invalid JSON string: "@ + json@,
                None => json_valid,
            },
            MysqlValue::Geometry(b)
            | MysqlValue::PointGeom(b)
            | MysqlValue::Linestring(b)
            | MysqlValue::Polygon(b)
            | MysqlValue::Multipoint(b)
            | MysqlValue::Multilinestring(b)
            | MysqlValue::Multipolygon(b)
            | MysqlValue::Geometrycollection(b) => match fault {
                Some(text) => b@.len() < 5 && text@ == "Invalid WKB geometry data"@,
                None => b@.len() >= 5,
            },
            _ => fault is None,
        },
        param matches MysqlValue::Json(json) ==> invalid_json_text(json@)
            == "Invalid JSON string: "@ + json@,
{
    reveal_strlit("Invalid JSON parameter: ");
    reveal_strlit("Invalid JSON string: ");
    reveal_strlit("Invalid JSON parameter: Invalid JSON string: ");
    if let MysqlValue::Json(json) = param {
        assert("Invalid JSON parameter: "@ + ("Invalid JSON string: "@ + json@)
            =~= "Invalid JSON parameter: Invalid JSON string: "@ + json@);
    }
}

/// Parameters are sent if all are sound. If not, what is reported is what is wrong with the first
/// that is not.
pub proof fn law_first_unsound_parameter_is_reported(
    params: Seq<MysqlValue>,
    fault: Option<String>,
)
    requires
        fault_text(fault) == first_fault(values(params), json_flags(values(params))),
    ensures
        fault is None <==> forall|i: int| 0 <= i < params.len() ==> sound(#[trigger] params[i]),
        fault matches Some(text) ==> exists|i: int|
            {
                &&& 0 <= i < params.len()
                &&& !sound(#[trigger] params[i])
                &&& forall|j: int| 0 <= j < i ==> sound(#[trigger] params[j])
                &&& match params[i] {
                    MysqlValue::Json(json) => text@
                        == "Invalid JSON parameter: Invalid JSON string: "@ + json@,
                    _ => text@ == "Invalid WKB geometry data"@,
                }
            },
{
    let all = values(params);
    let flags = json_flags(all);
    law_first_fault(all, flags);
    assert(all.len() == params.len());
    reveal_strlit("Invalid JSON parameter: ");
    reveal_strlit("Invalid JSON string: ");
    reveal_strlit("Invalid JSON parameter: Invalid JSON string: ");
    assert forall|i: int| 0 <= i < params.len() implies sound(#[trigger] params[i]) == (
    param_fault(all[i], flags[i]) is None) by {
        assert(all[i] == params[i]@);
        assert(flags[i] == json_flag(all[i]));
    }
    if fault is None {
        assert forall|i: int| 0 <= i < params.len() implies sound(#[trigger] params[i]) by {
            assert(param_fault(all[i], flags[i]) is None);
        }
    } else {
        let i = choose|i: int|
            {
                &&& 0 <= i < all.len()
                &&& #[trigger] param_fault(all[i], flags[i]) == first_fault(all, flags)
                &&& forall|j: int| 0 <= j < i ==> #[trigger] param_fault(all[j], flags[j]) is None
            };
        assert(all[i] == params[i]@);
        assert(flags[i] == json_flag(all[i]));
        assert(!sound(params[i]));
        assert forall|j: int| 0 <= j < i implies sound(#[trigger] params[j]) by {
            assert(param_fault(all[j], flags[j]) is None);
        }
        if let MysqlValue::Json(json) = params[i] {
            assert("Invalid JSON parameter: "@ + ("Invalid JSON string: "@ + json@)
                =~= "Invalid JSON parameter: Invalid JSON string: "@ + json@);
        }
    }
}

/// The parameters of a statement are sent if there are as many as the server asks for and each may
/// be used for the type in its place. If not, what is reported is the two numbers where these
/// differ, and otherwise the place, counted from one, of the first parameter that may not be used,
/// with the number of its kind and the name of the type.
pub proof fn law_first_mistyped_parameter_is_reported(
    params: Seq<MysqlValue>,
    param_types: Seq<ColumnType>,
    fault: Option<String>,
)
    requires
        fault_text(fault) == statement_fault(values(params), param_types),
    ensures
        fault is None <==> {
            &&& params.len() == param_types.len()
            &&& forall|i: int|
                0 <= i < params.len() ==> accepted((#[trigger] params[i])@, param_types[i])
        },
        params.len() != param_types.len() ==> (fault matches Some(text) && text@
            == "Parameter count mismatch: expected "@ + decimal(param_types.len()) + ", got "@
            + decimal(params.len())),
        params.len() == param_types.len() ==> (fault matches Some(text) ==> exists|i: int|
            {
                &&& 0 <= i < params.len()
                &&& !accepted((#[trigger] params[i])@, param_types[i])
                &&& forall|j: int|
                    0 <= j < i ==> accepted((#[trigger] params[j])@, param_types[j])
                &&& text@ == "Parameter "@ + decimal((i + 1) as nat)
                    + " type validation failed: Type mismatch: cannot use Discriminant("@ + decimal(
                    kind_index(params[i]@),
                ) + ") for column type "@ + column_type_text(param_types[i])
            }),
{
    let all = values(params);
    assert(all.len() == params.len());
    assert forall|i: int| 0 <= i < params.len() implies all[i] == (#[trigger] params[i])@ by {}
    lemma_first_type_fault(all, param_types);
    if params.len() == param_types.len() {
        if fault is None {
            assert forall|i: int| 0 <= i < params.len() implies accepted(
                (#[trigger] params[i])@,
                param_types[i],
            ) by {
                assert(accepted(all[i], param_types[i]));
            }
        } else {
            let i = lemma_mistyped_place(all, param_types);
            let text = fault->0;
            let kind = decimal(kind_index(params[i]@));
            let name = column_type_text(param_types[i]);
            reveal_strlit(" type validation failed: ");
            reveal_strlit("Type mismatch: cannot use Discriminant(");
            reveal_strlit(" type validation failed: Type mismatch: cannot use Discriminant(");
            assert(" type validation failed: Type mismatch: cannot use Discriminant("@
                =~= " type validation failed: "@ + "Type mismatch: cannot use Discriminant("@);
            assert(text@ =~= "Parameter "@ + decimal((i + 1) as nat)
                + " type validation failed: Type mismatch: cannot use Discriminant("@ + kind
                + ") for column type "@ + name);
            assert(!accepted(params[i]@, param_types[i]));
            assert forall|j: int| 0 <= j < i implies accepted(
                (#[trigger] params[j])@,
                param_types[j],
            ) by {
                assert(accepted(all[j], param_types[j]));
            }
        }
    }
}

/// The place of the first parameter with a wrong type, counted from zero.
proof fn lemma_mistyped_place(params: Seq<ValueModel>, param_types: Seq<ColumnType>) -> (i: int)
    requires
        first_type_fault(params, param_types) is Some,
    ensures
        0 <= i < params.len(),
        !accepted(params[i], param_types[i]),
        forall|j: int| 0 <= j < i ==> #[trigger] accepted(params[j], param_types[j]),
        first_type_fault(params, param_types)->0 == type_fault_text(
            (i + 1) as nat,
            TypeMismatch { kind: kind_index(params[i]) as usize, expected: param_types[i] },
        ),
    decreases params.len(),
{
    let front = params.drop_last();
    if first_type_fault(front, param_types) is Some {
        let i = lemma_mistyped_place(front, param_types);
        assert forall|j: int| 0 <= j < i implies #[trigger] accepted(
            params[j],
            param_types[j],
        ) by {
            assert(accepted(front[j], param_types[j]));
        }
        i
    } else {
        lemma_first_type_fault(front, param_types);
        assert forall|j: int| 0 <= j < front.len() implies #[trigger] accepted(
            params[j],
            param_types[j],
        ) by {
            assert(accepted(front[j], param_types[j]));
        }
        params.len() - 1
    }
}

} // verus!
