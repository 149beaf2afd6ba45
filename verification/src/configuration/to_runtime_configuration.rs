//! From the configuration as it is written down to the configuration that
//! serves queries: secrets are resolved, and the metadata is taken over.

use crate::configuration::environment::{error_message, Environment, Variable};
use crate::configuration::error::{
    MakeRuntimeConfigurationError, MakeRuntimeConfigurationErrorView,
};
use crate::configuration::values::{Secret, SecretView};
use crate::configuration::version1::{ParsedConfiguration, ParsedConfigurationView};
use crate::configuration::{Configuration, ConfigurationView};
use crate::metadata::database::{
    entries_view, ColumnInfo, ComparisonOperator, Nullable, OperatorKind, ScalarType,
    ScalarTypes, TableInfo, TablesInfo, Type, TypeRepresentation,
};
use crate::metadata::entries::reversed;
use crate::metadata::Metadata;
use vstd::prelude::*;

verus! {

/// The value of a secret: what is written out, or what the environment
/// holds under the variable that is named. A variable that cannot be read
/// is an error that names the configuration file.
pub open spec fn resolved<E: Environment>(secret: SecretView, environment: E) -> Result<
    Seq<char>,
    MakeRuntimeConfigurationErrorView,
> {
    match secret {
        SecretView::Plain(value) => Ok(value),
        SecretView::FromEnvironment { variable } => match environment.value(variable) {
            Ok(value) => Ok(value),
            Err(error) => Err(
                MakeRuntimeConfigurationErrorView::MissingEnvironmentVariable {
                    file_path: "configuration.json"@,
                    message: error_message(error),
                },
            ),
        },
    }
}

/// The configuration that serves queries: the access key, its secret and
/// the region resolved in this order, the first that cannot be resolved
/// giving the error; the address as the environment holds it, if it does;
/// and the metadata as it is written down.
pub open spec fn runtime_configuration<E: Environment>(
    parsed: ParsedConfigurationView,
    environment: E,
) -> Result<ConfigurationView, MakeRuntimeConfigurationErrorView> {
    match resolved(parsed.connection_settings.access_key_id, environment) {
        Err(error) => Err(error),
        Ok(access_key_id) => match resolved(
            parsed.connection_settings.secret_access_key,
            environment,
        ) {
            Err(error) => Err(error),
            Ok(secret_access_key) => match resolved(
                parsed.connection_settings.region,
                environment,
            ) {
                Err(error) => Err(error),
                Ok(region) => Ok(
                    ConfigurationView {
                        metadata: parsed.metadata,
                        access_key_id,
                        secret_access_key,
                        url: match environment.value("HASURA_DYNAMODB_URL"@) {
                            Ok(url) => Some(url),
                            Err(_) => None,
                        },
                        region,
                    },
                ),
            },
        },
    }
}

/// Resolves a secret: what is written out, or what the environment holds.
pub fn resolve_secret<E: Environment>(secret: Secret, environment: &E) -> (result: Result<
    String,
    MakeRuntimeConfigurationError,
>)
    ensures
        match result {
            Ok(value) => Ok(value@),
            Err(error) => Err(error@),
        } == resolved(secret@, *environment),
{
    match secret {
        Secret::Plain(key) => Ok(key),
        Secret::FromEnvironment { variable } => match environment.read(&variable) {
            Ok(value) => Ok(value),
            Err(error) => Err(
                MakeRuntimeConfigurationError::MissingEnvironmentVariable {
                    file_path: String::from_str(crate::configuration::version1::CONFIGURATION_FILENAME),
                    message: error.message(),
                },
            ),
        },
    }
}

/// Makes the configuration that serves queries from the configuration as
/// it is written down.
pub fn make_runtime_configuration<E: Environment>(
    parsed_config: ParsedConfiguration,
    environment: E,
) -> (result: Result<Configuration, MakeRuntimeConfigurationError>)
    ensures
        match result {
            Ok(configuration) => Ok(configuration@),
            Err(error) => Err(error@),
        } == runtime_configuration(parsed_config@, environment),
        parsed_config.metadata.wf() && result is Ok ==> result->Ok_0.metadata.wf(),
{
    let ParsedConfiguration { version: _, connection_settings, metadata } = parsed_config;
    let access_key_id = match resolve_secret(connection_settings.access_key_id.0, &environment) {
        Ok(value) => value,
        Err(error) => {
            return Err(error);
        },
    };
    let secret_access_key = match resolve_secret(connection_settings.secret_access_key.0, &environment) {
        Ok(value) => value,
        Err(error) => {
            return Err(error);
        },
    };
    let region = match resolve_secret(connection_settings.region.0, &environment) {
        Ok(value) => value,
        Err(error) => {
            return Err(error);
        },
    };
    let url = match environment.read(&Variable::new(String::from_str("HASURA_DYNAMODB_URL"))) {
        Ok(url) => Some(url),
        Err(_) => None,
    };
    Ok(
        Configuration {
            metadata: convert_metadata(metadata),
            access_key_id,
            secret_access_key,
            url,
            region,
        },
    )
}

/// Takes over the metadata of a configuration.
pub fn convert_metadata(metadata: Metadata) -> (converted: Metadata)
    ensures
        converted@ == metadata@,
        metadata.wf() ==> converted.wf(),
{
    Metadata {
        tables: convert_tables(metadata.tables),
        scalar_types: convert_scalar_types(metadata.scalar_types),
    }
}

fn convert_scalar_types(scalar_types: ScalarTypes) -> (converted: ScalarTypes)
    ensures
        converted@ == scalar_types@,
{
    let entries = scalar_types.0;
    let ghost all = entries@;
    let mut rest = reversed(entries);
    let mut taken: Vec<(String, ScalarType)> = Vec::new();
    while rest.len() > 0
        invariant
            rest@ =~= all.reverse().take(rest@.len() as int),
            rest@.len() + taken@.len() == all.len(),
            forall|i: int|
                0 <= i < taken@.len() ==> (#[trigger] taken@[i]).0@ == all[i].0@
                    && taken@[i].1@ == all[i].1@,
        decreases rest.len(),
    {
        let (name, value) = rest.pop().unwrap();
        taken.push((name, convert_scalar_type(value)));
    }
    assert(entries_view(taken@, |t: ScalarType| t@) =~= entries_view(
        all,
        |t: ScalarType| t@,
    ));
    ScalarTypes(taken)
}

fn convert_scalar_type(scalar_type: ScalarType) -> (converted: ScalarType)
    ensures
        converted@ == scalar_type@,
{
    let ScalarType { name, description, comparison_operators, type_representation } = scalar_type;
    let ghost all = comparison_operators@;
    let mut rest = reversed(comparison_operators);
    let mut operators: Vec<(String, ComparisonOperator)> = Vec::new();
    while rest.len() > 0
        invariant
            rest@ =~= all.reverse().take(rest@.len() as int),
            rest@.len() + operators@.len() == all.len(),
            forall|i: int|
                0 <= i < operators@.len() ==> (#[trigger] operators@[i]).0@ == all[i].0@
                    && operators@[i].1@ == all[i].1@,
        decreases rest.len(),
    {
        let (name, value) = rest.pop().unwrap();
        operators.push((name, convert_comparison_operator(value)));
    }
    assert(entries_view(operators@, |o: ComparisonOperator| o@) =~= entries_view(
        all,
        |o: ComparisonOperator| o@,
    ));
    ScalarType {
        name,
        description,
        comparison_operators: operators,
        type_representation: match type_representation {
            Some(representation) => Some(convert_type_representation(representation)),
            None => None,
        },
    }
}

fn convert_nullable(nullable: &Nullable) -> (converted: Nullable)
    ensures
        converted == *nullable,
{
    match nullable {
        Nullable::Nullable => Nullable::Nullable,
        Nullable::NonNullable => Nullable::NonNullable,
    }
}

fn convert_type(t: Type) -> (converted: Type)
    ensures
        converted@ == t@,
    decreases t,
{
    match t {
        Type::ScalarType(name) => Type::ScalarType(name),
        Type::ArrayType(inner) => Type::ArrayType(Box::new(convert_type(*inner))),
    }
}

fn convert_type_representation(type_representation: TypeRepresentation) -> (converted:
    TypeRepresentation)
    ensures
        converted@ == type_representation@,
{
    match type_representation {
        TypeRepresentation::Boolean => TypeRepresentation::Boolean,
        TypeRepresentation::String => TypeRepresentation::String,
        TypeRepresentation::Float32 => TypeRepresentation::Float32,
        TypeRepresentation::Float64 => TypeRepresentation::Float64,
        TypeRepresentation::Int16 => TypeRepresentation::Int16,
        TypeRepresentation::Int32 => TypeRepresentation::Int32,
        TypeRepresentation::Int64 => TypeRepresentation::Int64,
        TypeRepresentation::Int64AsString => TypeRepresentation::Int64AsString,
        TypeRepresentation::BigDecimal => TypeRepresentation::BigDecimal,
        TypeRepresentation::BigDecimalAsString => TypeRepresentation::BigDecimalAsString,
        TypeRepresentation::Timestamp => TypeRepresentation::Timestamp,
        TypeRepresentation::Timestamptz => TypeRepresentation::Timestamptz,
        TypeRepresentation::Time => TypeRepresentation::Time,
        TypeRepresentation::Timetz => TypeRepresentation::Timetz,
        TypeRepresentation::Date => TypeRepresentation::Date,
        TypeRepresentation::UUID => TypeRepresentation::UUID,
        TypeRepresentation::Geography => TypeRepresentation::Geography,
        TypeRepresentation::Geometry => TypeRepresentation::Geometry,
        TypeRepresentation::Json => TypeRepresentation::Json,
        TypeRepresentation::Enum(v) => TypeRepresentation::Enum(v),
    }
}

fn convert_comparison_operator(comparison_operator: ComparisonOperator) -> (converted:
    ComparisonOperator)
    ensures
        converted@ == comparison_operator@,
{
    ComparisonOperator {
        operator_name: comparison_operator.operator_name,
        operator_kind: convert_operator_kind(&comparison_operator.operator_kind),
        argument_type: comparison_operator.argument_type,
        is_infix: comparison_operator.is_infix,
    }
}

fn convert_operator_kind(operator_kind: &OperatorKind) -> (converted: OperatorKind)
    ensures
        converted == *operator_kind,
{
    match operator_kind {
        OperatorKind::Equal => OperatorKind::Equal,
        OperatorKind::In => OperatorKind::In,
        OperatorKind::Custom => OperatorKind::Custom,
    }
}

/// Takes over the tables of a configuration.
pub fn convert_tables(tables: TablesInfo) -> (converted: TablesInfo)
    ensures
        converted@ == tables@,
        tables.wf() ==> converted.wf(),
{
    let entries = tables.0;
    let ghost all = entries@;
    let mut rest = reversed(entries);
    let mut taken: Vec<(String, TableInfo)> = Vec::new();
    while rest.len() > 0
        invariant
            rest@ =~= all.reverse().take(rest@.len() as int),
            rest@.len() + taken@.len() == all.len(),
            forall|i: int|
                0 <= i < taken@.len() ==> (#[trigger] taken@[i]).0@ == all[i].0@
                    && taken@[i].1@ == all[i].1@,
        decreases rest.len(),
    {
        let (name, value) = rest.pop().unwrap();
        taken.push((name, convert_table_info(value)));
    }
    assert(entries_view(taken@, |t: TableInfo| t@) =~= entries_view(
        all,
        |t: TableInfo| t@,
    ));
    TablesInfo(taken)
}

fn convert_table_info(table_info: TableInfo) -> (converted: TableInfo)
    ensures
        converted@ == table_info@,
{
    let TableInfo { table_name, columns, partition_key, sort_key, gsi, description } = table_info;
    let ghost all = columns@;
    let mut rest = reversed(columns);
    let mut converted_columns: Vec<(String, ColumnInfo)> = Vec::new();
    while rest.len() > 0
        invariant
            rest@ =~= all.reverse().take(rest@.len() as int),
            rest@.len() + converted_columns@.len() == all.len(),
            forall|i: int|
                0 <= i < converted_columns@.len() ==> (#[trigger] converted_columns@[i]).0@ == all[i].0@
                    && converted_columns@[i].1@ == all[i].1@,
        decreases rest.len(),
    {
        let (name, value) = rest.pop().unwrap();
        converted_columns.push((name, convert_column_info(value)));
    }
    assert(entries_view(converted_columns@, |c: ColumnInfo| c@) =~= entries_view(
        all,
        |c: ColumnInfo| c@,
    ));
    TableInfo { table_name, columns: converted_columns, description, partition_key, sort_key, gsi }
}

fn convert_column_info(column_info: ColumnInfo) -> (converted: ColumnInfo)
    ensures
        converted@ == column_info@,
{
    ColumnInfo {
        name: column_info.name,
        type_: convert_type(column_info.type_),
        nullable: convert_nullable(&column_info.nullable),
        description: column_info.description,
    }
}

} // verus!
