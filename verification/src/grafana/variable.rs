//! Template-variable lowering.
use vstd::prelude::*;

use crate::datasource::DataSource;
use crate::grafana::wire::ins_opt;
use crate::json::{entry_of, opt_str_v, ArrayBuilder, DictBuilder, Json, JsonV};
use crate::text::{join, join_strings, views};
use crate::variable::{
    refresh_code, sort_code, ConstantVariable, CustomVariable, DataSourceVariable, QueryVariable,
    Variable, VariableSelection,
};

verus! {

/// The keys every variable has: name, type, label when given, whether it is
/// hidden, and whether it stays out of the URL.
pub open spec fn variable_base_v(
    name: Seq<char>,
    kind: Seq<char>,
    label: Option<String>,
    hidden: bool,
    skip_url_sync: bool,
) -> Map<Seq<char>, JsonV> {
    let m = Map::empty().insert("name"@, JsonV::Str(name)).insert("type"@, JsonV::Str(kind));
    let m = ins_opt(m, "label"@, match label {
        Some(l) => Some(JsonV::Str(l@)),
        None => None,
    });
    m.insert(
        "hide"@,
        JsonV::UInt(
            if hidden {
                1
            } else {
                0
            },
        ),
    ).insert("skipUrlSync"@, JsonV::Bool(skip_url_sync))
}

fn variable_base(
    name: &String,
    kind: &str,
    label: &Option<String>,
    hidden: bool,
    skip_url_sync: bool,
) -> (d: DictBuilder)
    ensures
        d.map_v() == variable_base_v(name@, kind@, *label, hidden, skip_url_sync),
{
    let mut d = DictBuilder::new();
    d.insert("name", Json::string(name));
    d.insert("type", Json::str(kind));
    if let Some(l) = label {
        d.insert("label", Json::string(l));
    }
    if hidden {
        d.insert("hide", Json::UInt(1));
    } else {
        d.insert("hide", Json::UInt(0));
    }
    d.insert("skipUrlSync", Json::Bool(skip_url_sync));
    d
}

/// A current selection as Grafana stores it.
pub open spec fn current_v(s: VariableSelection) -> JsonV {
    JsonV::Dict(
        Map::empty().insert("selected"@, JsonV::Bool(s.selected)).insert(
            "text"@,
            JsonV::Str(s.text@),
        ).insert("value"@, JsonV::Str(s.value@)),
    )
}

fn current_json(s: &VariableSelection) -> (j: Json)
    ensures
        j@ == current_v(*s),
{
    let mut d = DictBuilder::new();
    d.insert("selected", Json::Bool(s.selected));
    d.insert("text", Json::string(&s.text));
    d.insert("value", Json::string(&s.value));
    d.finish()
}

fn insert_current(d: &mut DictBuilder, current: &Option<VariableSelection>)
    ensures
        final(d).map_v() == ins_opt(old(d).map_v(), "current"@, match *current {
            Some(s) => Some(current_v(s)),
            None => None,
        }),
{
    if let Some(s) = current {
        d.insert("current", current_json(s));
    }
}

/// A datasource reference inside a variable, as `json!` writes it.
pub open spec fn variable_datasource_v(d: DataSource) -> JsonV {
    JsonV::Dict(Map::empty().insert("type"@, JsonV::Str(d.kind@)).insert("uid"@, JsonV::Str(d.uid@)))
}

fn variable_datasource_json(d: &DataSource) -> (j: Json)
    ensures
        j@ == variable_datasource_v(*d),
{
    let mut m = DictBuilder::new();
    m.insert("type", Json::string(&d.kind));
    m.insert("uid", Json::string(&d.uid));
    m.finish()
}

/// A datasource variable as Grafana stores it.
pub open spec fn datasource_variable_v(v: DataSourceVariable) -> Map<Seq<char>, JsonV> {
    let m = variable_base_v(v.name@, "datasource"@, v.label, v.hidden, v.skip_url_sync);
    let m = m.insert("query"@, JsonV::Str(v.plugin_id@)).insert("regex"@, JsonV::Str(v.regex@)).insert(
        "refresh"@,
        JsonV::UInt(refresh_code(v.refresh) as u64),
    ).insert("multi"@, JsonV::Bool(false)).insert("includeAll"@, JsonV::Bool(false)).insert(
        "allowCustomValue"@,
        JsonV::Bool(false),
    ).insert("options"@, JsonV::Array(Seq::empty()));
    ins_opt(m, "current"@, match v.current {
        Some(s) => Some(current_v(s)),
        None => None,
    })
}

/// The datasource a query variable uses: its own, else its query's, else
/// the dashboard's.
pub open spec fn query_variable_datasource(
    v: QueryVariable,
    default_ds: Option<DataSource>,
) -> Option<DataSource> {
    match v.datasource {
        Some(d) => Some(d),
        None => match v.query.spec_options().datasource {
            Some(d) => Some(d),
            None => default_ds,
        },
    }
}

/// A query variable as Grafana stores it.
pub open spec fn query_variable_v(v: QueryVariable, default_ds: Option<DataSource>) -> Map<
    Seq<char>,
    JsonV,
> {
    let expression = v.query.spec_expression()@;
    let ref_id = match v.query.spec_options().ref_id {
        Some(r) => r@,
        None => "StandardVariableQuery"@,
    };
    let m = variable_base_v(v.name@, "query"@, v.label, v.hidden, v.skip_url_sync);
    let m = m.insert(
        "query"@,
        JsonV::Dict(
            Map::empty().insert("query"@, JsonV::Str(expression)).insert(
                "refId"@,
                JsonV::Str(ref_id),
            ),
        ),
    ).insert("definition"@, JsonV::Str(expression));
    let m = ins_opt(m, "datasource"@, match query_variable_datasource(v, default_ds) {
        Some(d) => Some(variable_datasource_v(d)),
        None => None,
    });
    let m = m.insert("refresh"@, JsonV::UInt(refresh_code(v.refresh) as u64)).insert(
        "sort"@,
        JsonV::UInt(sort_code(v.sort) as u64),
    ).insert("multi"@, JsonV::Bool(v.multi)).insert("includeAll"@, JsonV::Bool(v.include_all)).insert(
        "allValue"@,
        opt_str_v(v.all_value),
    ).insert("allowCustomValue"@, JsonV::Bool(v.allow_custom_value)).insert(
        "regex"@,
        JsonV::Str(v.regex@),
    ).insert("options"@, JsonV::Array(Seq::empty()));
    ins_opt(m, "current"@, match v.current {
        Some(s) => Some(current_v(s)),
        None => None,
    })
}

/// The selection a custom variable starts with: the authored one, else its
/// first value.
pub open spec fn custom_current(v: CustomVariable) -> Option<VariableSelection> {
    match v.current {
        Some(s) => Some(s),
        None => if v.values@.len() > 0 {
            Some(VariableSelection { text: v.values@[0], value: v.values@[0], selected: true })
        } else {
            None
        },
    }
}

/// The options of a custom variable, each marked selected when it is the
/// current value.
pub open spec fn custom_options_v(values: Seq<String>, current: Option<VariableSelection>) -> Seq<
    JsonV,
>
    decreases values.len(),
{
    if values.len() == 0 {
        Seq::empty()
    } else {
        let value = values.last()@;
        custom_options_v(values.drop_last(), current).push(
            JsonV::Dict(
                Map::empty().insert(
                    "selected"@,
                    JsonV::Bool(
                        match current {
                            Some(s) => s.value@ == value,
                            None => false,
                        },
                    ),
                ).insert("text"@, JsonV::Str(value)).insert("value"@, JsonV::Str(value)),
            ),
        )
    }
}

/// A custom variable as Grafana stores it.
pub open spec fn custom_variable_v(v: CustomVariable) -> Map<Seq<char>, JsonV> {
    let current = custom_current(v);
    let m = variable_base_v(v.name@, "custom"@, v.label, v.hidden, v.skip_url_sync);
    let m = m.insert("query"@, JsonV::Str(join(views(v.values@), ","@))).insert(
        "options"@,
        JsonV::Array(custom_options_v(v.values@, current)),
    ).insert("multi"@, JsonV::Bool(v.multi)).insert("includeAll"@, JsonV::Bool(v.include_all)).insert(
        "allValue"@,
        opt_str_v(v.all_value),
    ).insert("allowCustomValue"@, JsonV::Bool(v.allow_custom_value));
    ins_opt(m, "current"@, match current {
        Some(s) => Some(current_v(s)),
        None => None,
    })
}

/// A constant variable as Grafana stores it; it is always selected.
pub open spec fn constant_variable_v(v: ConstantVariable) -> Map<Seq<char>, JsonV> {
    let m = variable_base_v(v.name@, "constant"@, v.label, v.hidden, false);
    m.insert("query"@, JsonV::Str(v.value@)).insert(
        "current"@,
        JsonV::Dict(
            Map::empty().insert("selected"@, JsonV::Bool(true)).insert(
                "text"@,
                JsonV::Str(v.value@),
            ).insert("value"@, JsonV::Str(v.value@)),
        ),
    )
}

/// A variable as Grafana stores it in `templating.list`.
pub open spec fn variable_v(v: Variable, default_ds: Option<DataSource>) -> JsonV {
    JsonV::Dict(
        match v {
            Variable::DataSource(d) => datasource_variable_v(d),
            Variable::Query(q) => query_variable_v(*q, default_ds),
            Variable::Custom(c) => custom_variable_v(c),
            Variable::Constant(c) => constant_variable_v(c),
        },
    )
}

/// The selection a custom variable is lowered with: its authored one, or
/// only when none was authored, its first value.
pub open spec fn expected_selection(v: CustomVariable) -> Option<(Seq<char>, Seq<char>)> {
    match v.current {
        Some(s) => Some((s.text@, s.value@)),
        None => if v.values@.len() > 0 {
            Some((v.values@[0]@, v.values@[0]@))
        } else {
            None
        },
    }
}

proof fn lemma_custom_options_index(values: Seq<String>, current: Option<VariableSelection>, i: int)
    requires
        0 <= i < values.len(),
    ensures
        custom_options_v(values, current).len() == values.len(),
        custom_options_v(values, current)[i] == JsonV::Dict(
            Map::empty().insert(
                "selected"@,
                JsonV::Bool(
                    match current {
                        Some(s) => s.value@ == values[i]@,
                        None => false,
                    },
                ),
            ).insert("text"@, JsonV::Str(values[i]@)).insert("value"@, JsonV::Str(values[i]@)),
        ),
    decreases values.len(),
{
    let prefix = values.drop_last();
    if i < values.len() - 1 {
        lemma_custom_options_index(prefix, current, i);
        assert(prefix[i] == values[i]);
    } else if values.len() > 1 {
        lemma_custom_options_index(prefix, current, 0);
    } else {
        assert(prefix.len() == 0);
        assert(custom_options_v(prefix, current).len() == 0);
    }
    assert(values.last() == values[values.len() - 1]);
}

/// A lowered custom variable records the authored selection as `current`
/// (the first value only when none was authored), and among its options,
/// one per value in order, exactly those whose value is the current value
/// are marked selected.
pub proof fn lemma_custom_current(v: CustomVariable)
    ensures
        ({
            let j = JsonV::Dict(custom_variable_v(v));
            &&& match expected_selection(v) {
                Some((text, value)) => {
                    &&& entry_of(j, "current"@) is Some
                    &&& entry_of(entry_of(j, "current"@)->0, "text"@) == Some(JsonV::Str(text))
                    &&& entry_of(entry_of(j, "current"@)->0, "value"@) == Some(JsonV::Str(value))
                },
                None => entry_of(j, "current"@) is None,
            }
            &&& entry_of(j, "options"@) is Some
            &&& entry_of(j, "options"@)->0 is Array
            &&& entry_of(j, "options"@)->0->Array_0.len() == v.values@.len()
            &&& forall|i: int|
                0 <= i < v.values@.len() ==> {
                    let o = #[trigger] entry_of(j, "options"@)->0->Array_0[i];
                    &&& entry_of(o, "value"@) == Some(JsonV::Str(v.values@[i]@))
                    &&& entry_of(o, "selected"@) == Some(
                        JsonV::Bool(
                            match expected_selection(v) {
                                Some((_, value)) => v.values@[i]@ == value,
                                None => false,
                            },
                        ),
                    )
                }
        }),
{
    reveal_strlit("current");
    reveal_strlit("options");
    reveal_strlit("text");
    reveal_strlit("value");
    reveal_strlit("selected");
    reveal_strlit("multi");
    reveal_strlit("includeAll");
    reveal_strlit("allValue");
    reveal_strlit("allowCustomValue");
    reveal_strlit("query");
    reveal_strlit("name");
    reveal_strlit("type");
    reveal_strlit("label");
    reveal_strlit("hide");
    reveal_strlit("skipUrlSync");
    let keys = seq![
        "multi"@,
        "includeAll"@,
        "allValue"@,
        "allowCustomValue"@,
        "query"@,
        "name"@,
        "type"@,
        "label"@,
        "hide"@,
        "skipUrlSync"@,
    ];
    assert forall|i: int| 0 <= i < keys.len() implies #[trigger] keys[i] != "current"@ && keys[i]
        != "options"@ by {
        assert(keys[i].len() != 7 || keys[i][0] != 'c' && keys[i][0] != 'o');
    }
    assert(keys[0] == "multi"@ && keys[1] == "includeAll"@ && keys[2] == "allValue"@);
    assert(keys[3] == "allowCustomValue"@ && keys[4] == "query"@ && keys[5] == "name"@);
    assert(keys[6] == "type"@ && keys[7] == "label"@ && keys[8] == "hide"@);
    assert(keys[9] == "skipUrlSync"@);
    assert("current"@ != "options"@) by {
        assert("current"@[0] != "options"@[0]);
    }
    assert("text"@ != "value"@ && "selected"@ != "value"@ && "selected"@ != "text"@) by {
        assert("text"@.len() != "value"@.len());
        assert("selected"@.len() != "value"@.len());
        assert("selected"@.len() != "text"@.len());
    }
    let current = custom_current(v);
    let options = custom_options_v(v.values@, current);
    if v.values@.len() > 0 {
        lemma_custom_options_index(v.values@, current, 0);
    } else {
        assert(options.len() == 0);
    }
    assert forall|i: int| 0 <= i < v.values@.len() implies {
        let o = #[trigger] options[i];
        &&& entry_of(o, "value"@) == Some(JsonV::Str(v.values@[i]@))
        &&& entry_of(o, "selected"@) == Some(
            JsonV::Bool(
                match expected_selection(v) {
                    Some((_, value)) => v.values@[i]@ == value,
                    None => false,
                },
            ),
        )
    } by {
        lemma_custom_options_index(v.values@, current, i);
    }
}

fn custom_options_json(values: &Vec<String>, current: &Option<VariableSelection>) -> (j: Json)
    ensures
        j@ == JsonV::Array(custom_options_v(values@, *current)),
{
    let mut a = ArrayBuilder::new();
    let mut i: usize = 0;
    while i < values.len()
        invariant
            i <= values@.len(),
            a.items_v() == custom_options_v(values@.take(i as int), *current),
        decreases values@.len() - i,
    {
        let value = &values[i];
        let selected = match current {
            Some(s) => s.value == *value,
            None => false,
        };
        let mut d = DictBuilder::new();
        d.insert("selected", Json::Bool(selected));
        d.insert("text", Json::string(value));
        d.insert("value", Json::string(value));
        a.push(d.finish());
        proof {
            assert(values@.take(i + 1).drop_last() =~= values@.take(i as int));
        }
        i += 1;
    }
    proof {
        assert(values@.take(values@.len() as int) =~= values@);
    }
    a.finish()
}

/// Lowers a variable, with the dashboard's datasource as fallback for query
/// variables.
pub fn normalize_variable(v: &Variable, default_ds: &Option<DataSource>) -> (j: Json)
    ensures
        j@ == variable_v(*v, *default_ds),
{
    match v {
        Variable::DataSource(v) => {
            let mut d = variable_base(&v.name, "datasource", &v.label, v.hidden, v.skip_url_sync);
            d.insert("query", Json::string(&v.plugin_id));
            d.insert("regex", Json::string(&v.regex));
            d.insert("refresh", Json::UInt(v.refresh.as_grafana() as u64));
            d.insert("multi", Json::Bool(false));
            d.insert("includeAll", Json::Bool(false));
            d.insert("allowCustomValue", Json::Bool(false));
            d.insert("options", ArrayBuilder::new().finish());
            insert_current(&mut d, &v.current);
            d.finish()
        },
        Variable::Query(v) => {
            let mut d = variable_base(&v.name, "query", &v.label, v.hidden, v.skip_url_sync);
            let expression = v.query.expression();
            let mut q = DictBuilder::new();
            q.insert("query", Json::string(expression));
            match &v.query.options().ref_id {
                Some(r) => q.insert("refId", Json::string(r)),
                None => q.insert("refId", Json::str("StandardVariableQuery")),
            }
            d.insert("query", q.finish());
            d.insert("definition", Json::string(expression));
            match &v.datasource {
                Some(ds) => d.insert("datasource", variable_datasource_json(ds)),
                None => match &v.query.options().datasource {
                    Some(ds) => d.insert("datasource", variable_datasource_json(ds)),
                    None => match default_ds {
                        Some(ds) => d.insert("datasource", variable_datasource_json(ds)),
                        None => {},
                    },
                },
            }
            d.insert("refresh", Json::UInt(v.refresh.as_grafana() as u64));
            d.insert("sort", Json::UInt(v.sort.as_grafana() as u64));
            d.insert("multi", Json::Bool(v.multi));
            d.insert("includeAll", Json::Bool(v.include_all));
            d.insert("allValue", Json::opt_string(&v.all_value));
            d.insert("allowCustomValue", Json::Bool(v.allow_custom_value));
            d.insert("regex", Json::string(&v.regex));
            d.insert("options", ArrayBuilder::new().finish());
            insert_current(&mut d, &v.current);
            d.finish()
        },
        Variable::Custom(v) => {
            let current = match &v.current {
                Some(s) => Some(s.copy()),
                None => if v.values.len() > 0 {
                    Some(
                        VariableSelection {
                            text: v.values[0].clone(),
                            value: v.values[0].clone(),
                            selected: true,
                        },
                    )
                } else {
                    None
                },
            };
            let mut d = variable_base(&v.name, "custom", &v.label, v.hidden, v.skip_url_sync);
            d.insert("query", Json::Str(join_strings(&v.values, ",")));
            d.insert("options", custom_options_json(&v.values, &current));
            d.insert("multi", Json::Bool(v.multi));
            d.insert("includeAll", Json::Bool(v.include_all));
            d.insert("allValue", Json::opt_string(&v.all_value));
            d.insert("allowCustomValue", Json::Bool(v.allow_custom_value));
            insert_current(&mut d, &current);
            d.finish()
        },
        Variable::Constant(v) => {
            let mut d = variable_base(&v.name, "constant", &v.label, v.hidden, false);
            d.insert("query", Json::string(&v.value));
            let mut c = DictBuilder::new();
            c.insert("selected", Json::Bool(true));
            c.insert("text", Json::string(&v.value));
            c.insert("value", Json::string(&v.value));
            d.insert("current", c.finish());
            d.finish()
        },
    }
}

} // verus!
