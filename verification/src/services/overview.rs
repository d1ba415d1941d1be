//! An overview of a gateway's devices, services and actions, each action
//! with its input and output arguments and their types, combined from the
//! device and service descriptions.
use crate::gateway::services::description::{
    self, action_arguments, device_children, device_services, service_actions, state_variables,
    ArgumentDirection, StateVariable,
};
use crate::gateway::overview::{self as gateway_overview, is_overview_of, overview_available};
use crate::gateway::services::description::ServiceDescription;
use crate::text::{clone_opt_text, clone_texts, opt_text, texts};
use core::ops::RangeInclusive;
use vstd::prelude::*;

verus! {

/// A device with its services and sub-devices.
#[derive(Debug, PartialEq)]
pub struct Device {
    pub name: String,
    pub kind: String,
    pub udn: String,
    pub model_name: String,
    pub model_number: String,
    pub model_description: String,
    pub services: Vec<self::Service>,
    pub devices: Vec<Self>,
}

impl Clone for Device {
    fn clone(&self) -> Self
        decreases self,
    {
        let mut devices: Vec<Device> = Vec::new();
        let mut j: usize = 0;
        while j < self.devices.len()
            invariant
                j <= self.devices@.len(),
            decreases self.devices.len() - j,
        {
            proof {
                assert(decreases_to!(self => self.devices));
                assert(decreases_to!(self.devices => self.devices@));
                assert(decreases_to!(self.devices@ => self.devices@[j as int]));
            }
            devices.push(self.devices[j].clone());
            j = j + 1;
        }
        Device {
            name: self.name.clone(),
            udn: self.udn.clone(),
            kind: self.kind.clone(),
            model_name: self.model_name.clone(),
            model_number: self.model_number.clone(),
            model_description: self.model_description.clone(),
            services: self.services.clone(),
            devices,
        }
    }
}

/// A service with its actions.
#[derive(Clone, Debug, PartialEq)]
pub struct Service {
    pub id: String,
    pub kind: String,
    pub control_url: String,
    pub scpd_url: String,
    pub actions: Vec<self::Action>,
}

/// An action: where and how to call it, and its arguments.
#[derive(Clone, Debug, PartialEq)]
pub struct Action {
    pub name: String,
    pub control_url: String,
    pub soap_action: String,
    pub inputs: Vec<Argument>,
    pub outputs: Vec<Argument>,
}

/// An argument with its type.
#[derive(Clone, Debug, PartialEq)]
pub struct Argument {
    pub name: String,
    pub kind: ArgumentType,
}

/// The type of an argument: the name of its state variable, and what that
/// state variable tells (data type, default, allowed values or range).
#[derive(Clone, Debug, PartialEq)]
pub struct ArgumentType {
    pub name: String,
    pub kind: Option<String>,
    pub default: Option<String>,
    pub allowed_values: Option<Vec<String>>,
    pub allowed_range: Option<AllowedRange>,
}

/// `Clone` of `core::ops::RangeInclusive`, which `derive(Clone)` of
/// [`AllowedRange`] calls. Nothing is stated of the copy.
pub assume_specification<Idx: Clone>[ <core::ops::RangeInclusive<Idx> as Clone>::clone ](
    r: &core::ops::RangeInclusive<Idx>,
) -> core::ops::RangeInclusive<Idx>;

/// The range of values that an argument allows, with an optional step.
#[derive(Clone, Debug, PartialEq)]
pub struct AllowedRange {
    pub range: RangeInclusive<usize>,
    pub step: Option<usize>,
}

pub struct AllowedRangeView {
    pub start: usize,
    pub end: usize,
    pub exhausted: bool,
    pub step: Option<usize>,
}

pub struct ArgumentTypeView {
    pub name: Seq<char>,
    pub kind: Option<Seq<char>>,
    pub default: Option<Seq<char>>,
    pub allowed_values: Option<Seq<Seq<char>>>,
    pub allowed_range: Option<AllowedRangeView>,
}

pub struct ArgumentView {
    pub name: Seq<char>,
    pub kind: ArgumentTypeView,
}

pub struct ActionView {
    pub name: Seq<char>,
    pub control_url: Seq<char>,
    pub soap_action: Seq<char>,
    pub inputs: Seq<ArgumentView>,
    pub outputs: Seq<ArgumentView>,
}

pub struct ServiceView {
    pub id: Seq<char>,
    pub kind: Seq<char>,
    pub control_url: Seq<char>,
    pub scpd_url: Seq<char>,
    pub actions: Seq<ActionView>,
}

impl View for AllowedRange {
    type V = AllowedRangeView;

    open spec fn view(&self) -> AllowedRangeView {
        AllowedRangeView {
            start: self.range@.start,
            end: self.range@.end,
            exhausted: self.range@.exhausted,
            step: self.step,
        }
    }
}

impl View for ArgumentType {
    type V = ArgumentTypeView;

    open spec fn view(&self) -> ArgumentTypeView {
        ArgumentTypeView {
            name: self.name@,
            kind: opt_text(self.kind),
            default: opt_text(self.default),
            allowed_values: match self.allowed_values {
                Some(v) => Some(texts(v@)),
                None => None,
            },
            allowed_range: match self.allowed_range {
                Some(r) => Some(r@),
                None => None,
            },
        }
    }
}

impl View for Argument {
    type V = ArgumentView;

    open spec fn view(&self) -> ArgumentView {
        ArgumentView { name: self.name@, kind: self.kind@ }
    }
}

/// A list of arguments as values.
pub open spec fn arguments_view(v: Seq<Argument>) -> Seq<ArgumentView> {
    v.map_values(|a: Argument| a@)
}

impl View for Action {
    type V = ActionView;

    open spec fn view(&self) -> ActionView {
        ActionView {
            name: self.name@,
            control_url: self.control_url@,
            soap_action: self.soap_action@,
            inputs: arguments_view(self.inputs@),
            outputs: arguments_view(self.outputs@),
        }
    }
}

impl View for Service {
    type V = ServiceView;

    open spec fn view(&self) -> ServiceView {
        ServiceView {
            id: self.id@,
            kind: self.kind@,
            control_url: self.control_url@,
            scpd_url: self.scpd_url@,
            actions: self.actions@.map_values(|a: Action| a@),
        }
    }
}

/// The first state variable of the given name.
pub open spec fn find_state_variable(vars: Seq<StateVariable>, name: Seq<char>) -> Option<
    StateVariable,
>
    decreases vars.len(),
{
    if vars.len() == 0 {
        None
    } else if vars[0].name@ == name {
        Some(vars[0])
    } else {
        find_state_variable(vars.drop_first(), name)
    }
}

/// The type of an argument: its state variable's name, and what the first
/// state variable of that name tells (nothing where there is none).
pub open spec fn argument_type_view(arg: description::Argument, vars: Seq<StateVariable>) -> ArgumentTypeView {
    let t = find_state_variable(vars, arg.kind@);
    ArgumentTypeView {
        name: arg.kind@,
        kind: match t {
            Some(v) => Some(v.kind@),
            None => None,
        },
        default: match t {
            Some(v) => opt_text(v.default_value),
            None => None,
        },
        allowed_values: match t {
            Some(v) => match v.allowed_value_list {
                Some(l) => Some(texts(l.allowed_values@)),
                None => None,
            },
            None => None,
        },
        allowed_range: match t {
            Some(v) => match v.allowed_range {
                Some(r) => Some(
                    AllowedRangeView {
                        start: r.minimum,
                        end: r.maximum,
                        exhausted: false,
                        step: r.step,
                    },
                ),
                None => None,
            },
            None => None,
        },
    }
}

/// An argument combined with its type.
pub open spec fn argument_view(arg: description::Argument, vars: Seq<StateVariable>) -> ArgumentView {
    ArgumentView { name: arg.name@, kind: argument_type_view(arg, vars) }
}

/// The arguments of the given direction, in their order, combined with
/// their types.
pub open spec fn arguments_with_direction(
    args: Seq<description::Argument>,
    direction: ArgumentDirection,
    vars: Seq<StateVariable>,
) -> Seq<ArgumentView>
    decreases args.len(),
{
    if args.len() == 0 {
        Seq::empty()
    } else {
        let rest = arguments_with_direction(args.drop_last(), direction, vars);
        if args.last().direction == direction {
            rest.push(argument_view(args.last(), vars))
        } else {
            rest
        }
    }
}

/// `service_type#action`.
pub open spec fn soap_action_of(service: description::Service, action: description::Action) -> Seq<
    char,
> {
    service.service_type@ + "#"@ + action.name@
}

/// An action of a service, with its inputs and outputs.
pub open spec fn action_view(
    service: description::Service,
    action: description::Action,
    vars: Seq<StateVariable>,
) -> ActionView {
    ActionView {
        name: action.name@,
        control_url: service.control_url@,
        soap_action: soap_action_of(service, action),
        inputs: arguments_with_direction(action_arguments(action), ArgumentDirection::In, vars),
        outputs: arguments_with_direction(action_arguments(action), ArgumentDirection::Out, vars),
    }
}

/// A service of a device, with the actions that its description lists.
pub open spec fn service_view(service: description::Service, sd: description::ServiceDescription) -> ServiceView {
    ServiceView {
        id: service.service_id@,
        kind: service.service_type@,
        control_url: service.control_url@,
        scpd_url: service.scpd_url@,
        actions: service_actions(sd).map_values(
            |a: description::Action| action_view(service, a, state_variables(sd)),
        ),
    }
}

/// The arguments that an action lists (none where it has no list).
pub fn extract_arguments_from_action(action: &description::Action) -> (r: Vec<description::Argument>)
    ensures
        r@ == action_arguments(*action),
{
    match &action.argument_list {
        Some(list) => {
            let mut r: Vec<description::Argument> = Vec::new();
            let mut i: usize = 0;
            while i < list.arguments.len()
                invariant
                    i <= list.arguments.len(),
                    r@ == list.arguments@.take(i as int),
                decreases list.arguments.len() - i,
            {
                r.push(list.arguments[i].clone());
                i = i + 1;
                assert(r@ =~= list.arguments@.take(i as int));
            }
            assert(list.arguments@.take(i as int) =~= list.arguments@);
            r
        },
        None => Vec::new(),
    }
}

/// The first state variable of the given name.
fn find_state_variable_exec<'a>(vars: &'a [StateVariable], name: &String) -> (r: Option<
    &'a StateVariable,
>)
    ensures
        match r {
            Some(v) => find_state_variable(vars@, name@) == Some(*v),
            None => find_state_variable(vars@, name@) is None,
        },
{
    let mut i: usize = 0;
    assert(vars@.subrange(0, vars@.len() as int) =~= vars@);
    while i < vars.len()
        invariant
            i <= vars@.len(),
            find_state_variable(vars@, name@) == find_state_variable(
                vars@.subrange(i as int, vars@.len() as int),
                name@,
            ),
        decreases vars.len() - i,
    {
        assert(vars@.subrange(i as int, vars@.len() as int).drop_first() =~= vars@.subrange(
            i + 1,
            vars@.len() as int,
        ));
        if vars[i].name == *name {
            return Some(&vars[i]);
        }
        i = i + 1;
    }
    None
}

/// An argument combined with the type that the first state variable named
/// by it tells.
pub fn combine_argument_and_type(
    argument: &description::Argument,
    argument_types: &[StateVariable],
) -> (r: self::Argument)
    ensures
        r@ == argument_view(*argument, argument_types@),
        r.name@ == argument.name@,
        r.kind.name@ == argument.kind@,
        match find_state_variable(argument_types@, argument.kind@) {
            Some(v) => {
                &&& r@.kind.kind == Some(v.kind@)
                &&& r@.kind.default == opt_text(v.default_value)
                &&& r@.kind.allowed_values == match v.allowed_value_list {
                    Some(l) => Some(texts(l.allowed_values@)),
                    None => None,
                }
                &&& r@.kind.allowed_range == match v.allowed_range {
                    Some(a) => Some(
                        AllowedRangeView {
                            start: a.minimum,
                            end: a.maximum,
                            exhausted: false,
                            step: a.step,
                        },
                    ),
                    None => None,
                }
            },
            None => {
                &&& r.kind.kind is None
                &&& r.kind.default is None
                &&& r.kind.allowed_values is None
                &&& r.kind.allowed_range is None
            },
        },
{
    let arg_type = find_state_variable_exec(argument_types, &argument.kind);
    let kind = match arg_type {
        Some(t) => Some(t.kind.clone()),
        None => None,
    };
    let default = match arg_type {
        Some(t) => clone_opt_text(&t.default_value),
        None => None,
    };
    let allowed_values = match arg_type {
        Some(t) => match &t.allowed_value_list {
            Some(list) => Some(clone_texts(&list.allowed_values)),
            None => None,
        },
        None => None,
    };
    let allowed_range = match arg_type {
        Some(t) => match &t.allowed_range {
            Some(range) => Some(AllowedRange { range: range.minimum..=range.maximum, step: range.step }),
            None => None,
        },
        None => None,
    };
    let r = Argument {
        name: argument.name.clone(),
        kind: ArgumentType { name: argument.kind.clone(), kind, default, allowed_values, allowed_range },
    };
    assert(r@.kind =~= argument_type_view(*argument, argument_types@));
    r
}

/// The first state variable of a name is the one at the first index where
/// that name stands.
pub proof fn lemma_find_first_state_variable(vars: Seq<StateVariable>, name: Seq<char>, k: int)
    requires
        0 <= k < vars.len(),
        vars[k].name@ == name,
        forall|m: int| 0 <= m < k ==> (#[trigger] vars[m]).name@ != name,
    ensures
        find_state_variable(vars, name) == Some(vars[k]),
    decreases k,
{
    if k > 0 {
        assert(vars[0].name@ != name);
        assert forall|m: int| 0 <= m < k - 1 implies (#[trigger] vars.drop_first()[m]).name@
            != name by {
            assert(vars.drop_first()[m] == vars[m + 1]);
        }
        lemma_find_first_state_variable(vars.drop_first(), name, k - 1);
    }
}

/// No state variable is found for a name that none of them has.
pub proof fn lemma_no_state_variable(vars: Seq<StateVariable>, name: Seq<char>)
    requires
        forall|m: int| 0 <= m < vars.len() ==> (#[trigger] vars[m]).name@ != name,
    ensures
        find_state_variable(vars, name) is None,
    decreases vars.len(),
{
    if vars.len() > 0 {
        assert(vars[0].name@ != name);
        assert forall|m: int| 0 <= m < vars.len() - 1 implies (#[trigger] vars.drop_first()[m]).name@
            != name by {
            assert(vars.drop_first()[m] == vars[m + 1]);
        }
        lemma_no_state_variable(vars.drop_first(), name);
    }
}

/// The type of an argument is told by the first state variable that bears
/// the argument's type name: its data type, its default value (none where
/// it has none; neither an allowed value nor anything else stands in for
/// it), its allowed values and its allowed range, from `minimum` to
/// `maximum` with its step. Where no state variable bears that name, the
/// type tells nothing beyond its name.
pub proof fn lemma_argument_type_from_state_variable(
    arg: description::Argument,
    vars: Seq<StateVariable>,
)
    ensures
        argument_view(arg, vars).name == arg.name@,
        argument_view(arg, vars).kind == argument_type_view(arg, vars),
        argument_type_view(arg, vars).name == arg.kind@,
        forall|k: int|
            #![trigger vars[k]]
            0 <= k < vars.len() && vars[k].name@ == arg.kind@ && (forall|m: int|
                0 <= m < k ==> (#[trigger] vars[m]).name@ != arg.kind@) ==> {
                let t = argument_type_view(arg, vars);
                let v = vars[k];
                &&& t.kind == Some(v.kind@)
                &&& t.default == match v.default_value {
                    Some(d) => Some(d@),
                    None => None::<Seq<char>>,
                }
                &&& t.allowed_values == match v.allowed_value_list {
                    Some(l) => Some(texts(l.allowed_values@)),
                    None => None,
                }
                &&& t.allowed_range == match v.allowed_range {
                    Some(a) => Some(
                        AllowedRangeView {
                            start: a.minimum,
                            end: a.maximum,
                            exhausted: false,
                            step: a.step,
                        },
                    ),
                    None => None,
                }
            },
        (forall|m: int| 0 <= m < vars.len() ==> (#[trigger] vars[m]).name@ != arg.kind@) ==> {
            let t = argument_type_view(arg, vars);
            &&& t.kind is None
            &&& t.default is None
            &&& t.allowed_values is None
            &&& t.allowed_range is None
        },
{
    assert forall|k: int|
        #![trigger vars[k]]
        0 <= k < vars.len() && vars[k].name@ == arg.kind@ && (forall|m: int|
            0 <= m < k ==> (#[trigger] vars[m]).name@ != arg.kind@) implies {
            let t = argument_type_view(arg, vars);
            let v = vars[k];
            &&& t.kind == Some(v.kind@)
            &&& t.default == match v.default_value {
                Some(d) => Some(d@),
                None => None::<Seq<char>>,
            }
            &&& t.allowed_values == match v.allowed_value_list {
                Some(l) => Some(texts(l.allowed_values@)),
                None => None,
            }
            &&& t.allowed_range == match v.allowed_range {
                Some(a) => Some(
                    AllowedRangeView {
                        start: a.minimum,
                        end: a.maximum,
                        exhausted: false,
                        step: a.step,
                    },
                ),
                None => None,
            }
        } by {
        lemma_find_first_state_variable(vars, arg.kind@, k);
    }
    if forall|m: int| 0 <= m < vars.len() ==> (#[trigger] vars[m]).name@ != arg.kind@ {
        lemma_no_state_variable(vars, arg.kind@);
    }
}

/// The arguments of the given direction, in their order, combined with
/// their types.
pub fn arguments_for_direction(
    args: &Vec<description::Argument>,
    direction: ArgumentDirection,
    argument_types: &[StateVariable],
) -> (r: Vec<self::Argument>)
    ensures
        arguments_view(r@) == arguments_with_direction(args@, direction, argument_types@),
{
    let mut r: Vec<self::Argument> = Vec::new();
    let mut i: usize = 0;
    while i < args.len()
        invariant
            i <= args@.len(),
            arguments_view(r@) == arguments_with_direction(
                args@.take(i as int),
                direction,
                argument_types@,
            ),
        decreases args.len() - i,
    {
        assert(args@.take(i + 1).drop_last() =~= args@.take(i as int));
        if args[i].direction == direction {
            let a = combine_argument_and_type(&args[i], argument_types);
            let ghost before = r@;
            r.push(a);
            assert(arguments_view(r@) =~= arguments_view(before).push(a@));
        }
        i = i + 1;
    }
    assert(args@.take(i as int) =~= args@);
    r
}

/// A service of a device, with the actions that its description lists:
/// each action's control URL is the service's, its `SOAPACTION` is
/// `service_type#name`, and its inputs and outputs are its arguments of
/// direction `in` and `out`, combined with their state variables.
pub fn map_service_from_api(
    service: &description::Service,
    service_description: &description::ServiceDescription,
) -> (r: self::Service)
    ensures
        r@ == service_view(*service, *service_description),
        r.id@ == service.service_id@,
        r.kind@ == service.service_type@,
        r.control_url@ == service.control_url@,
        r.scpd_url@ == service.scpd_url@,
        r.actions@.len() == service_actions(*service_description).len(),
        forall|k: int|
            #![trigger r.actions@[k]]
            0 <= k < r.actions@.len() ==> {
                &&& r.actions@[k].name@ == service_actions(*service_description)[k].name@
                &&& r.actions@[k].control_url@ == service.control_url@
                &&& r.actions@[k].soap_action@ == service.service_type@ + "#"@
                    + service_actions(*service_description)[k].name@
            },
{
    let argument_types: &[StateVariable] = match &service_description.service_state_table.state_variables {
        Some(v) => v.as_slice(),
        None => &[],
    };
    assert(argument_types@ == state_variables(*service_description));
    let mut actions: Vec<self::Action> = Vec::new();
    match &service_description.action_list.actions {
        Some(desc_actions) => {
            let mut i: usize = 0;
            while i < desc_actions.len()
                invariant
                    i <= desc_actions@.len(),
                    desc_actions@ == service_actions(*service_description),
                    argument_types@ == state_variables(*service_description),
                    actions@.map_values(|a: self::Action| a@) == desc_actions@.take(i as int).map_values(
                        |a: description::Action|
                            action_view(*service, a, state_variables(*service_description)),
                    ),
                decreases desc_actions.len() - i,
            {
                let desc_action = &desc_actions[i];
                let argument_list = extract_arguments_from_action(desc_action);
                let mut soap_action = service.service_type.clone();
                soap_action.append("#");
                soap_action.append(desc_action.name.as_str());
                let action = Action {
                    name: desc_action.name.clone(),
                    control_url: service.control_url.clone(),
                    soap_action,
                    inputs: arguments_for_direction(&argument_list, ArgumentDirection::In, argument_types),
                    outputs: arguments_for_direction(&argument_list, ArgumentDirection::Out, argument_types),
                };
                let ghost before = actions@;
                let ghost f = |a: description::Action|
                    action_view(*service, a, state_variables(*service_description));
                actions.push(action);
                assert(action@ == f(desc_actions@[i as int]));
                assert(desc_actions@.take(i + 1) =~= desc_actions@.take(i as int).push(desc_actions@[i as int]));
                assert(desc_actions@.take(i + 1).map_values(f) =~= desc_actions@.take(i as int).map_values(f).push(f(desc_actions@[i as int])));
                assert(actions@.map_values(|a: self::Action| a@) =~= before.map_values(|a: self::Action| a@).push(action@));
                i = i + 1;
            }
            assert(desc_actions@.take(i as int) =~= desc_actions@);
        },
        None => {},
    }
    let r = Service {
        id: service.service_id.clone(),
        kind: service.service_type.clone(),
        control_url: service.control_url.clone(),
        scpd_url: service.scpd_url.clone(),
        actions,
    };
    assert(r@.actions =~= service_view(*service, *service_description).actions);
    proof {
        lemma_service_view_fields(*service, *service_description);
        assert forall|k: int|
            #![trigger r.actions@[k]]
            0 <= k < r.actions@.len() implies {
                &&& r.actions@[k].name@ == service_actions(*service_description)[k].name@
                &&& r.actions@[k].control_url@ == service.control_url@
                &&& r.actions@[k].soap_action@ == service.service_type@ + "#"@
                    + service_actions(*service_description)[k].name@
            } by {
            assert(r@.actions[k] == r.actions@[k]@);
        }
    }
    r
}

/// The arguments of a direction are exactly those of the action's
/// arguments whose direction it is, in their order, each combined with its
/// type: the arguments of the other direction are left out.
pub proof fn lemma_arguments_with_direction_filter(
    args: Seq<description::Argument>,
    direction: ArgumentDirection,
    vars: Seq<StateVariable>,
)
    ensures
        arguments_with_direction(args, direction, vars) == args.filter(
            |a: description::Argument| a.direction == direction,
        ).map_values(|a: description::Argument| argument_view(a, vars)),
    decreases args.len(),
{
    reveal_with_fuel(Seq::filter, 1);
    let pred = |a: description::Argument| a.direction == direction;
    let f = |a: description::Argument| argument_view(a, vars);
    if args.len() > 0 {
        lemma_arguments_with_direction_filter(args.drop_last(), direction, vars);
        let sub = args.drop_last().filter(pred);
        assert(args.filter(pred) == if pred(args.last()) {
            sub.push(args.last())
        } else {
            sub
        });
        if pred(args.last()) {
            assert(sub.push(args.last()).map_values(f) =~= sub.map_values(f).push(f(args.last())));
        }
    } else {
        assert(args.filter(pred) =~= Seq::<description::Argument>::empty());
        assert(args.filter(pred).map_values(f) =~= Seq::<ArgumentView>::empty());
    }
}

/// What a service overview holds of its description: the service's id,
/// type, control URL and SCPD URL; one action for each action that the
/// service description lists, in order, each with that action's name,
/// called at the service's control URL (not at its SCPD URL) as
/// `service_type#name`, and with as many inputs and outputs together as
/// the action has arguments.
pub proof fn lemma_service_view_fields(service: description::Service, sd: ServiceDescription)
    ensures
        service_view(service, sd).id == service.service_id@,
        service_view(service, sd).kind == service.service_type@,
        service_view(service, sd).control_url == service.control_url@,
        service_view(service, sd).scpd_url == service.scpd_url@,
        service_view(service, sd).actions.len() == service_actions(sd).len(),
        forall|k: int|
            #![trigger service_view(service, sd).actions[k]]
            0 <= k < service_actions(sd).len() ==> {
                let a = service_view(service, sd).actions[k];
                let da = service_actions(sd)[k];
                &&& a.name == da.name@
                &&& a.control_url == service.control_url@
                &&& a.soap_action == service.service_type@ + "#"@ + da.name@
                &&& a.inputs.len() + a.outputs.len() == action_arguments(da).len()
                &&& a.inputs == action_arguments(da).filter(
                    |x: description::Argument| x.direction == ArgumentDirection::In,
                ).map_values(|x: description::Argument| argument_view(x, state_variables(sd)))
                &&& a.outputs == action_arguments(da).filter(
                    |x: description::Argument| x.direction == ArgumentDirection::Out,
                ).map_values(|x: description::Argument| argument_view(x, state_variables(sd)))
            },
{
    assert forall|k: int|
        #![trigger service_view(service, sd).actions[k]]
        0 <= k < service_actions(sd).len() implies {
            let a = service_view(service, sd).actions[k];
            let da = service_actions(sd)[k];
            &&& a.name == da.name@
            &&& a.control_url == service.control_url@
            &&& a.soap_action == service.service_type@ + "#"@ + da.name@
            &&& a.inputs.len() + a.outputs.len() == action_arguments(da).len()
            &&& a.inputs == action_arguments(da).filter(
                |x: description::Argument| x.direction == ArgumentDirection::In,
            ).map_values(|x: description::Argument| argument_view(x, state_variables(sd)))
            &&& a.outputs == action_arguments(da).filter(
                |x: description::Argument| x.direction == ArgumentDirection::Out,
            ).map_values(|x: description::Argument| argument_view(x, state_variables(sd)))
        } by {
        lemma_arguments_with_direction_filter(
            action_arguments(service_actions(sd)[k]),
            ArgumentDirection::In,
            state_variables(sd),
        );
        lemma_arguments_with_direction_filter(
            action_arguments(service_actions(sd)[k]),
            ArgumentDirection::Out,
            state_variables(sd),
        );
        lemma_inputs_and_outputs_partition(
            action_arguments(service_actions(sd)[k]),
            state_variables(sd),
        );
    }
}

/// Every argument of an action is an input or an output, and only one of
/// them: the inputs and outputs of an action together count as many as its
/// arguments.
pub proof fn lemma_inputs_and_outputs_partition(
    args: Seq<description::Argument>,
    vars: Seq<StateVariable>,
)
    ensures
        arguments_with_direction(args, ArgumentDirection::In, vars).len()
            + arguments_with_direction(args, ArgumentDirection::Out, vars).len() == args.len(),
    decreases args.len(),
{
    if args.len() > 0 {
        lemma_inputs_and_outputs_partition(args.drop_last(), vars);
    }
}

/// `o` is `full` without its presentation URL: the same name, type, UDN,
/// model and services, and each sub-device the same way.
pub open spec fn same_except_url(o: self::Device, full: gateway_overview::Device) -> bool
    decreases full,
{
    &&& o.name@ == full.name@
    &&& o.kind@ == full.kind@
    &&& o.udn@ == full.udn@
    &&& o.model_name@ == full.model_name@
    &&& o.model_number@ == full.model_number@
    &&& o.model_description@ == full.model_description@
    &&& o.services@ == full.services@
    &&& o.devices@.len() == full.devices@.len()
    &&& forall|j: int|
        0 <= j < full.devices@.len() ==> same_except_url(
            #[trigger] o.devices@[j],
            full.devices@[j],
        )
}

/// The device overview without its presentation URL.
pub fn without_url(full: gateway_overview::Device) -> (o: self::Device)
    ensures
        same_except_url(o, full),
        o.name@ == full.name@,
        o.kind@ == full.kind@,
        o.udn@ == full.udn@,
        o.model_name@ == full.model_name@,
        o.model_number@ == full.model_number@,
        o.model_description@ == full.model_description@,
        o.services@ == full.services@,
        o.devices@.len() == full.devices@.len(),
    decreases full,
{
    let ghost whole = full;
    let gateway_overview::Device {
        name,
        udn,
        kind,
        model_name,
        model_number,
        model_description,
        url: _,
        services,
        devices: mut rest,
    } = full;
    let mut devices: Vec<self::Device> = Vec::new();
    while rest.len() > 0
        invariant
            whole == full,
            devices@.len() <= whole.devices@.len(),
            rest@ == whole.devices@.skip(devices@.len() as int),
            forall|k: int|
                0 <= k < devices@.len() ==> same_except_url(
                    #[trigger] devices@[k],
                    whole.devices@[k],
                ),
        decreases rest.len(),
    {
        let ghost i = devices@.len() as int;
        let child = rest.remove(0);
        proof {
            assert(child == whole.devices@[i]);
            assert(decreases_to!(whole => whole.devices));
            assert(decreases_to!(whole.devices => whole.devices@));
            assert(decreases_to!(whole.devices@ => whole.devices@[i]));
            assert(decreases_to!(whole => child));
        }
        devices.push(without_url(child));
        assert(rest@ =~= whole.devices@.skip(devices@.len() as int));
    }
    Device {
        name,
        kind,
        udn,
        model_name,
        model_number,
        model_description,
        services,
        devices,
    }
}

/// The overview of a device, without presentation URLs, made of the
/// service descriptions in `descriptions` (pairs of an SCPD URL and the
/// description fetched from it); `None` where a service of the device or of
/// a sub-device has no description there.
pub fn create_overview_for_device(
    device: &description::Device,
    descriptions: &Vec<(String, ServiceDescription)>,
) -> (r: Option<self::Device>)
    ensures
        r is Some <==> overview_available(*device, descriptions@),
        r matches Some(o) ==> exists|full: gateway_overview::Device|
            #[trigger] is_overview_of(full, *device, descriptions@) && same_except_url(o, full),
        r matches Some(o) ==> {
            &&& o.name@ == device.friendly_name@
            &&& o.kind@ == device.device_type@
            &&& o.udn@ == device.udn@
            &&& o.model_name@ == device.model_name@
            &&& o.model_number@ == device.model_number@
            &&& o.model_description@ == device.model_description@
            &&& o.services@.len() == device_services(*device).len()
            &&& o.devices@.len() == device_children(*device).len()
        },
{
    match gateway_overview::create_overview_for_device(device, descriptions) {
        Some(full) => {
            let ghost whole = full;
            let o = without_url(full);
            assert(is_overview_of(whole, *device, descriptions@) && same_except_url(o, whole));
            Some(o)
        },
        None => None,
    }
}

/// The overview without presentation URLs carries, for the device and for
/// each sub-device, the description's friendly name, device type (as
/// `kind`), UDN, model name, model number and model description, each in
/// its own field; its services are those of the full overview, one for
/// each of the device's services, in order.
pub proof fn lemma_overview_without_url_fields(
    o: self::Device,
    full: gateway_overview::Device,
    d: description::Device,
    table: Seq<(String, ServiceDescription)>,
)
    requires
        is_overview_of(full, d, table),
        same_except_url(o, full),
    ensures
        o.name@ == d.friendly_name@,
        o.kind@ == d.device_type@,
        o.udn@ == d.udn@,
        o.model_name@ == d.model_name@,
        o.model_number@ == d.model_number@,
        o.model_description@ == d.model_description@,
        o.services@ == full.services@,
        o.services@.len() == device_services(d).len(),
        o.devices@.len() == device_children(d).len(),
        forall|j: int|
            #![trigger o.devices@[j]]
            0 <= j < device_children(d).len() ==> {
                let c = o.devices@[j];
                let dc = device_children(d)[j];
                &&& c.name@ == dc.friendly_name@
                &&& c.kind@ == dc.device_type@
                &&& c.udn@ == dc.udn@
                &&& c.model_name@ == dc.model_name@
                &&& c.model_number@ == dc.model_number@
                &&& c.model_description@ == dc.model_description@
                &&& is_overview_of(full.devices@[j], dc, table)
                &&& same_except_url(c, full.devices@[j])
            },
    decreases d,
{
    gateway_overview::lemma_overview_fields(full, d, table);
    assert forall|j: int|
        #![trigger o.devices@[j]]
        0 <= j < device_children(d).len() implies {
            let c = o.devices@[j];
            let dc = device_children(d)[j];
            &&& c.name@ == dc.friendly_name@
            &&& c.kind@ == dc.device_type@
            &&& c.udn@ == dc.udn@
            &&& c.model_name@ == dc.model_name@
            &&& c.model_number@ == dc.model_number@
            &&& c.model_description@ == dc.model_description@
            &&& is_overview_of(full.devices@[j], dc, table)
            &&& same_except_url(c, full.devices@[j])
        } by {
        assert(same_except_url(o.devices@[j], full.devices@[j]));
        crate::gateway::services::description::lemma_child_decreases(d, j);
        lemma_overview_without_url_fields(
            o.devices@[j],
            full.devices@[j],
            device_children(d)[j],
            table,
        );
    }
}

} // verus!
