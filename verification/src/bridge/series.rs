//! Templates and series. `validate` is the domain's check of blueprints, and
//! `schema_revision` the revision that the domain writes.
use vstd::prelude::*;
use crate::bridge::conversions;
use crate::bridge::dto::{
    SettlementSummaryDto, StreakDto, TaskBlueprintNodeDto, TaskDto, TaskSeriesDto, TemplateDto,
};
use crate::bridge::error;
use crate::bridge::error::BridgeErrorDto;
use crate::domain::{
    CreateTaskSeriesFromTaskCommand, CreateTaskSeriesFromTemplateCommand, CreateTemplateCommand,
    ReplaceTaskBlueprintCommand, SaveTemplateCommand, SettlementSummary, Streak, Task,
    TaskBlueprint, TaskSeries, TaskTemplate, UpdateTaskSeriesCommand, UpdateTemplateCommand,
};
use crate::error::ClientFailure;
use crate::ids;
use crate::ids::Uuid;

verus! {

/// The templates.
pub fn get_templates<F: FnOnce() -> Result<Vec<TaskTemplate>, ClientFailure>>(
    client: Result<F, ClientFailure>,
) -> (r: Result<Vec<TemplateDto>, BridgeErrorDto>)
    requires
        client matches Ok(run) ==> run.requires(()),
    ensures
        match client {
            Err(failure) => error::not_reached(failure, r),
            Ok(run) => exists|reply: Result<Vec<TaskTemplate>, ClientFailure>| #[trigger]
                run.ensures((), reply) && error::answered(
                    reply,
                    r,
                    |templates: Vec<TaskTemplate>, dtos: Vec<TemplateDto>|
                        conversions::shows_all(
                            templates@,
                            dtos@,
                            |value: TaskTemplate, shown: TemplateDto| shown.shows(value),
                        ),
                ),
        },
{
    let run = match client {
        Ok(run) => run,
        Err(failure) => {
            return Err(BridgeErrorDto::from(failure));
        },
    };
    let reply = run();
    proof {
        assert(run.ensures((), reply));
    }
    match reply {
        Ok(value) => Ok(conversions::convert_all(value, conversions::template_to_dto)),
        Err(failure) => Err(BridgeErrorDto::from(failure)),
    }
}

/// The series.
pub fn get_task_series<F: FnOnce() -> Result<Vec<TaskSeries>, ClientFailure>>(
    client: Result<F, ClientFailure>,
) -> (r: Result<Vec<TaskSeriesDto>, BridgeErrorDto>)
    requires
        client matches Ok(run) ==> run.requires(()),
    ensures
        match client {
            Err(failure) => error::not_reached(failure, r),
            Ok(run) => exists|reply: Result<Vec<TaskSeries>, ClientFailure>| #[trigger]
                run.ensures((), reply) && error::answered(
                    reply,
                    r,
                    |series: Vec<TaskSeries>, dtos: Vec<TaskSeriesDto>|
                        conversions::shows_all(
                            series@,
                            dtos@,
                            |value: TaskSeries, shown: TaskSeriesDto| shown.shows(value),
                        ),
                ),
        },
{
    let run = match client {
        Ok(run) => run,
        Err(failure) => {
            return Err(BridgeErrorDto::from(failure));
        },
    };
    let reply = run();
    proof {
        assert(run.ensures((), reply));
    }
    match reply {
        Ok(value) => Ok(conversions::convert_all(value, conversions::task_series_to_dto)),
        Err(failure) => Err(BridgeErrorDto::from(failure)),
    }
}

/// The rule as the domain writes it, where it takes the rule.
pub fn validate_recurrence_rule<F: FnOnce(String, i64, String) -> Result<String, ClientFailure>>(
    client: Result<F, ClientFailure>,
    rrule: String,
    starts_at: i64,
    time_zone: String,
) -> (r: Result<String, BridgeErrorDto>)
    requires
        client matches Ok(run) ==> run.requires((rrule, starts_at, time_zone)),
    ensures
        match client {
            Err(failure) => error::not_reached(failure, r),
            Ok(run) => exists|reply: Result<String, ClientFailure>| #[trigger]
                run.ensures((rrule, starts_at, time_zone), reply) && error::handed_on(reply, r),
        },
{
    let run = match client {
        Ok(run) => run,
        Err(failure) => {
            return Err(BridgeErrorDto::from(failure));
        },
    };
    let reply = run(rrule, starts_at, time_zone);
    proof {
        assert(run.ensures((rrule, starts_at, time_zone), reply));
    }
    conversions::client_result(reply)
}

/// Makes a template out of a task.
pub fn save_task_as_template<
    F: FnOnce(SaveTemplateCommand) -> Result<TaskTemplate, ClientFailure>,
>(
    client: Result<F, ClientFailure>,
    task_id: String,
    name: String,
    default_list_id: Option<String>,
) -> (r: Result<TemplateDto, BridgeErrorDto>)
    requires
        client matches Ok(run) ==> match (
            ids::parsed(task_id@),
            conversions::parsed_or_absent(default_list_id),
        ) {
            (Some(id), Some(list)) => run.requires(
                (
                    SaveTemplateCommand {
                        task_id: id,
                        name,
                        default_list_id: list,
                    },
                ),
            ),
            _ => true,
        },
    ensures
        match (ids::parsed(task_id@), conversions::parsed_or_absent(default_list_id)) {
            (Some(id), Some(list)) => match client {
                Err(failure) => error::not_reached(failure, r),
                Ok(run) => exists|reply: Result<TaskTemplate, ClientFailure>| #[trigger]
                    run.ensures(
                        (
                            SaveTemplateCommand {
                                task_id: id,
                                name,
                                default_list_id: list,
                            },
                        ),
                        reply,
                    ) && error::answered(
                        reply,
                        r,
                        |template: TaskTemplate, dto: TemplateDto| dto.shows(template),
                    ),
            },
            _ => error::refused(r),
        },
{
    let id = match conversions::parse_uuid(task_id.as_str()) {
        Ok(id) => id,
        Err(refusal) => {
            return Err(refusal);
        },
    };
    let list = match conversions::parse_optional_uuid(&default_list_id) {
        Ok(id) => id,
        Err(refusal) => {
            return Err(refusal);
        },
    };
    let run = match client {
        Ok(run) => run,
        Err(failure) => {
            return Err(BridgeErrorDto::from(failure));
        },
    };
    let command = SaveTemplateCommand { task_id: id, name, default_list_id: list };
    let reply = run(command);
    proof {
        assert(run.ensures((command,), reply));
    }
    match reply {
        Ok(value) => Ok(conversions::template_to_dto(value)),
        Err(failure) => Err(BridgeErrorDto::from(failure)),
    }
}

/// Makes a template.
pub fn create_template<
    F: FnOnce(CreateTemplateCommand) -> Result<TaskTemplate, ClientFailure>,
    V: FnOnce(&TaskBlueprint) -> Result<(), String>,
>(
    client: Result<F, ClientFailure>,
    schema_revision: u32,
    validate: V,
    name: String,
    default_list_id: Option<String>,
    nodes: Vec<TaskBlueprintNodeDto>,
) -> (r: Result<TemplateDto, BridgeErrorDto>)
    requires
        client matches Ok(run) ==> match conversions::parsed_or_absent(default_list_id) {
            Some(list) => forall|made: Result<TaskBlueprint, String>| #[trigger]
                conversions::blueprint_made(nodes@, schema_revision, validate, made) && made is Ok
                    ==> run.requires(
                    (
                        CreateTemplateCommand {
                            name,
                            default_list_id: list,
                            blueprint: made->Ok_0,
                        },
                    ),
                ),
            None => true,
        },
        forall|blueprint: TaskBlueprint| #[trigger] validate.requires((&blueprint,)),
    ensures
        match conversions::parsed_or_absent(default_list_id) {
            Some(list) => exists|made: Result<TaskBlueprint, String>| #[trigger]
                conversions::blueprint_made(nodes@, schema_revision, validate, made) && match made {
                    Err(_) => error::refused(r),
                    Ok(blueprint) => match client {
                        Err(failure) => error::not_reached(failure, r),
                        Ok(run) => exists|reply: Result<TaskTemplate, ClientFailure>| #[trigger]
                            run.ensures(
                                (
                                    CreateTemplateCommand {
                                        name,
                                        default_list_id: list,
                                        blueprint,
                                    },
                                ),
                                reply,
                            ) && error::answered(
                                reply,
                                r,
                                |template: TaskTemplate, dto: TemplateDto| dto.shows(template),
                            ),
                    },
                },
            None => error::refused(r),
        },
{
    let ghost asked = nodes@;
    let list = match conversions::parse_optional_uuid(&default_list_id) {
        Ok(id) => id,
        Err(refusal) => {
            return Err(refusal);
        },
    };
    let made = conversions::blueprint_from_dtos(nodes, schema_revision, validate);
    proof {
        assert(conversions::blueprint_made(asked, schema_revision, validate, made));
    }
    let blueprint = match made {
        Ok(blueprint) => blueprint,
        Err(_) => {
            return Err(BridgeErrorDto::invalid_input());
        },
    };
    let run = match client {
        Ok(run) => run,
        Err(failure) => {
            return Err(BridgeErrorDto::from(failure));
        },
    };
    let command = CreateTemplateCommand { name, default_list_id: list, blueprint };
    let reply = run(command);
    proof {
        assert(run.ensures((command,), reply));
    }
    match reply {
        Ok(value) => Ok(conversions::template_to_dto(value)),
        Err(failure) => Err(BridgeErrorDto::from(failure)),
    }
}

/// Changes a template.
pub fn update_template<
    F: FnOnce(UpdateTemplateCommand) -> Result<TaskTemplate, ClientFailure>,
    V: FnOnce(&TaskBlueprint) -> Result<(), String>,
>(
    client: Result<F, ClientFailure>,
    schema_revision: u32,
    validate: V,
    template_id: String,
    name: String,
    default_list_id: Option<String>,
    nodes: Vec<TaskBlueprintNodeDto>,
) -> (r: Result<TemplateDto, BridgeErrorDto>)
    requires
        client matches Ok(run) ==> match (
            ids::parsed(template_id@),
            conversions::parsed_or_absent(default_list_id),
        ) {
            (Some(id), Some(list)) => forall|made: Result<TaskBlueprint, String>| #[trigger]
                conversions::blueprint_made(nodes@, schema_revision, validate, made) && made is Ok
                    ==> run.requires(
                    (
                        UpdateTemplateCommand {
                            template_id: id,
                            name,
                            default_list_id: list,
                            blueprint: Some(made->Ok_0),
                        },
                    ),
                ),
            _ => true,
        },
        forall|blueprint: TaskBlueprint| #[trigger] validate.requires((&blueprint,)),
    ensures
        match (ids::parsed(template_id@), conversions::parsed_or_absent(default_list_id)) {
            (Some(id), Some(list)) => exists|made: Result<TaskBlueprint, String>| #[trigger]
                conversions::blueprint_made(nodes@, schema_revision, validate, made) && match made {
                    Err(_) => error::refused(r),
                    Ok(blueprint) => match client {
                        Err(failure) => error::not_reached(failure, r),
                        Ok(run) => exists|reply: Result<TaskTemplate, ClientFailure>| #[trigger]
                            run.ensures(
                                (
                                    UpdateTemplateCommand {
                                        template_id: id,
                                        name,
                                        default_list_id: list,
                                        blueprint: Some(blueprint),
                                    },
                                ),
                                reply,
                            ) && error::answered(
                                reply,
                                r,
                                |template: TaskTemplate, dto: TemplateDto| dto.shows(template),
                            ),
                    },
                },
            _ => error::refused(r),
        },
{
    let ghost asked = nodes@;
    let id = match conversions::parse_uuid(template_id.as_str()) {
        Ok(id) => id,
        Err(refusal) => {
            return Err(refusal);
        },
    };
    let list = match conversions::parse_optional_uuid(&default_list_id) {
        Ok(id) => id,
        Err(refusal) => {
            return Err(refusal);
        },
    };
    let made = conversions::blueprint_from_dtos(nodes, schema_revision, validate);
    proof {
        assert(conversions::blueprint_made(asked, schema_revision, validate, made));
    }
    let blueprint = match made {
        Ok(blueprint) => blueprint,
        Err(_) => {
            return Err(BridgeErrorDto::invalid_input());
        },
    };
    let run = match client {
        Ok(run) => run,
        Err(failure) => {
            return Err(BridgeErrorDto::from(failure));
        },
    };
    let command = UpdateTemplateCommand {
        template_id: id,
        name,
        default_list_id: list,
        blueprint: Some(blueprint),
    };
    let reply = run(command);
    proof {
        assert(run.ensures((command,), reply));
    }
    match reply {
        Ok(value) => Ok(conversions::template_to_dto(value)),
        Err(failure) => Err(BridgeErrorDto::from(failure)),
    }
}

/// Gives a template the tasks below a task.
pub fn replace_template_blueprint<
    F: FnOnce(ReplaceTaskBlueprintCommand) -> Result<TaskTemplate, ClientFailure>,
>(
    client: Result<F, ClientFailure>,
    template_id: String,
    task_id: String,
) -> (r: Result<TemplateDto, BridgeErrorDto>)
    requires
        client matches Ok(run) ==> match (ids::parsed(template_id@), ids::parsed(task_id@)) {
            (Some(template), Some(task)) => run.requires(
                (
                    ReplaceTaskBlueprintCommand {
                        template_id: template,
                        task_id: task,
                    },
                ),
            ),
            _ => true,
        },
    ensures
        match (ids::parsed(template_id@), ids::parsed(task_id@)) {
            (Some(template), Some(task)) => match client {
                Err(failure) => error::not_reached(failure, r),
                Ok(run) => exists|reply: Result<TaskTemplate, ClientFailure>| #[trigger]
                    run.ensures(
                        (
                            ReplaceTaskBlueprintCommand {
                                template_id: template,
                                task_id: task,
                            },
                        ),
                        reply,
                    ) && error::answered(
                        reply,
                        r,
                        |template: TaskTemplate, dto: TemplateDto| dto.shows(template),
                    ),
            },
            _ => error::refused(r),
        },
{
    let template = match conversions::parse_uuid(template_id.as_str()) {
        Ok(id) => id,
        Err(refusal) => {
            return Err(refusal);
        },
    };
    let task = match conversions::parse_uuid(task_id.as_str()) {
        Ok(id) => id,
        Err(refusal) => {
            return Err(refusal);
        },
    };
    let run = match client {
        Ok(run) => run,
        Err(failure) => {
            return Err(BridgeErrorDto::from(failure));
        },
    };
    let command = ReplaceTaskBlueprintCommand { template_id: template, task_id: task };
    let reply = run(command);
    proof {
        assert(run.ensures((command,), reply));
    }
    match reply {
        Ok(value) => Ok(conversions::template_to_dto(value)),
        Err(failure) => Err(BridgeErrorDto::from(failure)),
    }
}

/// Makes the tasks of a template.
pub fn instantiate_template<F: FnOnce(Uuid) -> Result<Vec<Task>, ClientFailure>>(
    client: Result<F, ClientFailure>,
    template_id: String,
) -> (r: Result<Vec<TaskDto>, BridgeErrorDto>)
    requires
        client matches Ok(run) ==> (ids::parsed(template_id@) matches Some(id) ==> run.requires(
            (id,),
        )),
    ensures
        match client {
            Err(failure) => error::not_reached(failure, r),
            Ok(run) => match ids::parsed(template_id@) {
                Some(id) => exists|reply: Result<Vec<Task>, ClientFailure>| #[trigger]
                    run.ensures((id,), reply) && error::answered(
                        reply,
                        r,
                        |tasks: Vec<Task>, dtos: Vec<TaskDto>|
                            conversions::shows_tasks(dtos@, tasks@),
                    ),
                None => error::refused(r),
            },
        },
{
    let run = match client {
        Ok(run) => run,
        Err(failure) => {
            return Err(BridgeErrorDto::from(failure));
        },
    };
    let id = match conversions::parse_uuid(template_id.as_str()) {
        Ok(id) => id,
        Err(refusal) => {
            return Err(refusal);
        },
    };
    let reply = run(id);
    proof {
        assert(run.ensures((id,), reply));
    }
    match reply {
        Ok(value) => Ok(conversions::tasks_to_dtos(value)),
        Err(failure) => Err(BridgeErrorDto::from(failure)),
    }
}

/// Makes a series of the tasks of a template.
pub fn create_task_series_from_template<
    F: FnOnce(CreateTaskSeriesFromTemplateCommand) -> Result<TaskSeries, ClientFailure>,
>(
    client: Result<F, ClientFailure>,
    template_id: String,
    rrule: String,
    starts_at: i64,
    time_zone: String,
) -> (r: Result<TaskSeriesDto, BridgeErrorDto>)
    requires
        client matches Ok(run) ==> match ids::parsed(template_id@) {
            Some(id) => run.requires(
                (
                    CreateTaskSeriesFromTemplateCommand {
                        template_id: id,
                        rrule,
                        starts_at,
                        time_zone,
                    },
                ),
            ),
            None => true,
        },
    ensures
        match ids::parsed(template_id@) {
            Some(id) => match client {
                Err(failure) => error::not_reached(failure, r),
                Ok(run) => exists|reply: Result<TaskSeries, ClientFailure>| #[trigger]
                    run.ensures(
                        (
                            CreateTaskSeriesFromTemplateCommand {
                                template_id: id,
                                rrule,
                                starts_at,
                                time_zone,
                            },
                        ),
                        reply,
                    ) && error::answered(
                        reply,
                        r,
                        |series: TaskSeries, dto: TaskSeriesDto| dto.shows(series),
                    ),
            },
            None => error::refused(r),
        },
{
    let id = match conversions::parse_uuid(template_id.as_str()) {
        Ok(id) => id,
        Err(refusal) => {
            return Err(refusal);
        },
    };
    let run = match client {
        Ok(run) => run,
        Err(failure) => {
            return Err(BridgeErrorDto::from(failure));
        },
    };
    let command = CreateTaskSeriesFromTemplateCommand {
        template_id: id,
        rrule,
        starts_at,
        time_zone,
    };
    let reply = run(command);
    proof {
        assert(run.ensures((command,), reply));
    }
    match reply {
        Ok(value) => Ok(conversions::task_series_to_dto(value)),
        Err(failure) => Err(BridgeErrorDto::from(failure)),
    }
}

/// Makes a series of a task and the tasks below it.
pub fn create_task_series_from_task<
    F: FnOnce(CreateTaskSeriesFromTaskCommand) -> Result<TaskSeries, ClientFailure>,
>(
    client: Result<F, ClientFailure>,
    task_id: String,
    target_list_id: Option<String>,
    rrule: String,
    starts_at: i64,
    time_zone: String,
) -> (r: Result<TaskSeriesDto, BridgeErrorDto>)
    requires
        client matches Ok(run) ==> match (
            ids::parsed(task_id@),
            conversions::parsed_or_absent(target_list_id),
        ) {
            (Some(id), Some(target)) => run.requires(
                (
                    CreateTaskSeriesFromTaskCommand {
                        task_id: id,
                        target_list_id: target,
                        rrule,
                        starts_at,
                        time_zone,
                    },
                ),
            ),
            _ => true,
        },
    ensures
        match (ids::parsed(task_id@), conversions::parsed_or_absent(target_list_id)) {
            (Some(id), Some(target)) => match client {
                Err(failure) => error::not_reached(failure, r),
                Ok(run) => exists|reply: Result<TaskSeries, ClientFailure>| #[trigger]
                    run.ensures(
                        (
                            CreateTaskSeriesFromTaskCommand {
                                task_id: id,
                                target_list_id: target,
                                rrule,
                                starts_at,
                                time_zone,
                            },
                        ),
                        reply,
                    ) && error::answered(
                        reply,
                        r,
                        |series: TaskSeries, dto: TaskSeriesDto| dto.shows(series),
                    ),
            },
            _ => error::refused(r),
        },
{
    let id = match conversions::parse_uuid(task_id.as_str()) {
        Ok(id) => id,
        Err(refusal) => {
            return Err(refusal);
        },
    };
    let target = match conversions::parse_optional_uuid(&target_list_id) {
        Ok(id) => id,
        Err(refusal) => {
            return Err(refusal);
        },
    };
    let run = match client {
        Ok(run) => run,
        Err(failure) => {
            return Err(BridgeErrorDto::from(failure));
        },
    };
    let command = CreateTaskSeriesFromTaskCommand {
        task_id: id,
        target_list_id: target,
        rrule,
        starts_at,
        time_zone,
    };
    let reply = run(command);
    proof {
        assert(run.ensures((command,), reply));
    }
    match reply {
        Ok(value) => Ok(conversions::task_series_to_dto(value)),
        Err(failure) => Err(BridgeErrorDto::from(failure)),
    }
}

/// Changes a series.
pub fn update_task_series<
    F: FnOnce(UpdateTaskSeriesCommand) -> Result<TaskSeries, ClientFailure>,
    V: FnOnce(&TaskBlueprint) -> Result<(), String>,
>(
    client: Result<F, ClientFailure>,
    schema_revision: u32,
    validate: V,
    series_id: String,
    target_list_id: Option<String>,
    nodes: Vec<TaskBlueprintNodeDto>,
    rrule: String,
    starts_at: i64,
    time_zone: String,
    enabled: bool,
) -> (r: Result<TaskSeriesDto, BridgeErrorDto>)
    requires
        client matches Ok(run) ==> match (
            ids::parsed(series_id@),
            conversions::parsed_or_absent(target_list_id),
        ) {
            (Some(id), Some(target)) => forall|made: Result<TaskBlueprint, String>| #[trigger]
                conversions::blueprint_made(nodes@, schema_revision, validate, made) && made is Ok
                    ==> run.requires(
                    (
                        UpdateTaskSeriesCommand {
                            series_id: id,
                            blueprint: made->Ok_0,
                            target_list_id: target,
                            rrule,
                            starts_at,
                            time_zone,
                            enabled,
                        },
                    ),
                ),
            _ => true,
        },
        forall|blueprint: TaskBlueprint| #[trigger] validate.requires((&blueprint,)),
    ensures
        match (ids::parsed(series_id@), conversions::parsed_or_absent(target_list_id)) {
            (Some(id), Some(target)) => exists|made: Result<TaskBlueprint, String>| #[trigger]
                conversions::blueprint_made(nodes@, schema_revision, validate, made) && match made {
                    Err(_) => error::refused(r),
                    Ok(blueprint) => match client {
                        Err(failure) => error::not_reached(failure, r),
                        Ok(run) => exists|reply: Result<TaskSeries, ClientFailure>| #[trigger]
                            run.ensures(
                                (
                                    UpdateTaskSeriesCommand {
                                        series_id: id,
                                        blueprint,
                                        target_list_id: target,
                                        rrule,
                                        starts_at,
                                        time_zone,
                                        enabled,
                                    },
                                ),
                                reply,
                            ) && error::answered(
                                reply,
                                r,
                                |series: TaskSeries, dto: TaskSeriesDto| dto.shows(series),
                            ),
                    },
                },
            _ => error::refused(r),
        },
{
    let ghost asked = nodes@;
    let id = match conversions::parse_uuid(series_id.as_str()) {
        Ok(id) => id,
        Err(refusal) => {
            return Err(refusal);
        },
    };
    let target = match conversions::parse_optional_uuid(&target_list_id) {
        Ok(id) => id,
        Err(refusal) => {
            return Err(refusal);
        },
    };
    let made = conversions::blueprint_from_dtos(nodes, schema_revision, validate);
    proof {
        assert(conversions::blueprint_made(asked, schema_revision, validate, made));
    }
    let blueprint = match made {
        Ok(blueprint) => blueprint,
        Err(_) => {
            return Err(BridgeErrorDto::invalid_input());
        },
    };
    let run = match client {
        Ok(run) => run,
        Err(failure) => {
            return Err(BridgeErrorDto::from(failure));
        },
    };
    let command = UpdateTaskSeriesCommand {
        series_id: id,
        blueprint,
        target_list_id: target,
        rrule,
        starts_at,
        time_zone,
        enabled,
    };
    let reply = run(command);
    proof {
        assert(run.ensures((command,), reply));
    }
    match reply {
        Ok(value) => Ok(conversions::task_series_to_dto(value)),
        Err(failure) => Err(BridgeErrorDto::from(failure)),
    }
}

/// Deletes a series.
pub fn delete_task_series<F: FnOnce(Uuid) -> Result<(), ClientFailure>>(
    client: Result<F, ClientFailure>,
    series_id: String,
) -> (r: Result<(), BridgeErrorDto>)
    requires
        client matches Ok(run) ==> (ids::parsed(series_id@) matches Some(id) ==> run.requires(
            (id,),
        )),
    ensures
        match client {
            Err(failure) => error::not_reached(failure, r),
            Ok(run) => match ids::parsed(series_id@) {
                Some(id) => exists|reply: Result<(), ClientFailure>| #[trigger]
                    run.ensures((id,), reply) && error::handed_on(reply, r),
                None => error::refused(r),
            },
        },
{
    let run = match client {
        Ok(run) => run,
        Err(failure) => {
            return Err(BridgeErrorDto::from(failure));
        },
    };
    let id = match conversions::parse_uuid(series_id.as_str()) {
        Ok(id) => id,
        Err(refusal) => {
            return Err(refusal);
        },
    };
    let reply = run(id);
    proof {
        assert(run.ensures((id,), reply));
    }
    conversions::client_result(reply)
}

/// Deletes a template.
pub fn delete_template<F: FnOnce(Uuid) -> Result<(), ClientFailure>>(
    client: Result<F, ClientFailure>,
    template_id: String,
) -> (r: Result<(), BridgeErrorDto>)
    requires
        client matches Ok(run) ==> (ids::parsed(template_id@) matches Some(id) ==> run.requires(
            (id,),
        )),
    ensures
        match client {
            Err(failure) => error::not_reached(failure, r),
            Ok(run) => match ids::parsed(template_id@) {
                Some(id) => exists|reply: Result<(), ClientFailure>| #[trigger]
                    run.ensures((id,), reply) && error::handed_on(reply, r),
                None => error::refused(r),
            },
        },
{
    let run = match client {
        Ok(run) => run,
        Err(failure) => {
            return Err(BridgeErrorDto::from(failure));
        },
    };
    let id = match conversions::parse_uuid(template_id.as_str()) {
        Ok(id) => id,
        Err(refusal) => {
            return Err(refusal);
        },
    };
    let reply = run(id);
    proof {
        assert(run.ensures((id,), reply));
    }
    conversions::client_result(reply)
}

/// Makes the tasks that are due by a millisecond.
pub fn settle_due_series<F: FnOnce(i64) -> Result<SettlementSummary, ClientFailure>>(
    client: Result<F, ClientFailure>,
    at_ms: i64,
) -> (r: Result<SettlementSummaryDto, BridgeErrorDto>)
    requires
        client matches Ok(run) ==> run.requires((at_ms,)),
    ensures
        match client {
            Err(failure) => error::not_reached(failure, r),
            Ok(run) => exists|reply: Result<SettlementSummary, ClientFailure>| #[trigger]
                run.ensures((at_ms,), reply) && error::answered(
                    reply,
                    r,
                    |summary: SettlementSummary, dto: SettlementSummaryDto| dto.shows(summary),
                ),
        },
{
    let run = match client {
        Ok(run) => run,
        Err(failure) => {
            return Err(BridgeErrorDto::from(failure));
        },
    };
    let reply = run(at_ms);
    proof {
        assert(run.ensures((at_ms,), reply));
    }
    match reply {
        Ok(value) => Ok(conversions::settlement_to_dto(value)),
        Err(failure) => Err(BridgeErrorDto::from(failure)),
    }
}

/// How many times in a row the tasks of a series were done.
pub fn get_task_series_streak<F: FnOnce(Uuid, i64) -> Result<Streak, ClientFailure>>(
    client: Result<F, ClientFailure>,
    series_id: String,
    at_ms: i64,
) -> (r: Result<StreakDto, BridgeErrorDto>)
    requires
        client matches Ok(run) ==> (ids::parsed(series_id@) matches Some(id) ==> run.requires(
            (id, at_ms),
        )),
    ensures
        match client {
            Err(failure) => error::not_reached(failure, r),
            Ok(run) => match ids::parsed(series_id@) {
                Some(id) => exists|reply: Result<Streak, ClientFailure>| #[trigger]
                    run.ensures((id, at_ms), reply) && error::answered(
                        reply,
                        r,
                        |streak: Streak, dto: StreakDto|
                            dto.current == streak.current && dto.finalized == streak.finalized,
                    ),
                None => error::refused(r),
            },
        },
{
    let run = match client {
        Ok(run) => run,
        Err(failure) => {
            return Err(BridgeErrorDto::from(failure));
        },
    };
    let id = match conversions::parse_uuid(series_id.as_str()) {
        Ok(id) => id,
        Err(refusal) => {
            return Err(refusal);
        },
    };
    let reply = run(id, at_ms);
    proof {
        assert(run.ensures((id, at_ms), reply));
    }
    match reply {
        Ok(value) => Ok(conversions::streak_to_dto(value)),
        Err(failure) => Err(BridgeErrorDto::from(failure)),
    }
}

} // verus!
