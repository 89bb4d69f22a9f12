//! Azure databases: PostgreSQL, MySQL, Redis, CosmosDB and SQL Server.
use vstd::prelude::*;

use crate::migration::providers::aws::network::seg_after;
use crate::migration::providers::aws::database::{rds_plan_memory, valkey_plan_memory};
use crate::migration::providers::shared::{
    spec_upcloud_managed_database_hcl, upcloud_managed_database_hcl,
};
use crate::migration::types::{
    cat2, cat3, cat5, new_result, note, opt_view, push_note, result_model, MigrationResult,
    MigrationStatus, ResultModel,
};
use crate::terraform::types::TerraformResource;
use crate::text::{
    before_char_v, chars_of, contains, contains_str, eq_str, push_str, slice_of, starts_with_exec,
    string_of, trim_char_v,
};

verus! {

/// The database plan for an Azure SKU name.
pub open spec fn db_sku_plan(s: Seq<char>) -> Seq<char> {
    if contains(s, "B_"@) || contains(s, "Burstable"@) {
        "1x1xCPU-2GB-25GB"@
    } else if contains(s, "GP_"@) || contains(s, "GeneralPurpose"@) {
        "1x2xCPU-4GB-50GB"@
    } else if contains(s, "MO_"@) || contains(s, "MemoryOptimized"@) {
        "2x4xCPU-8GB-100GB"@
    } else {
        "1x2xCPU-4GB-50GB"@
    }
}

fn map_db_sku(s: &str) -> (r: String)
    ensures
        r@ == db_sku_plan(s@),
{
    let v = chars_of(s);
    if contains_str(&v, "B_") || contains_str(&v, "Burstable") {
        String::from_str("1x1xCPU-2GB-25GB")
    } else if contains_str(&v, "GP_") || contains_str(&v, "GeneralPurpose") {
        String::from_str("1x2xCPU-4GB-50GB")
    } else if contains_str(&v, "MO_") || contains_str(&v, "MemoryOptimized") {
        String::from_str("2x4xCPU-8GB-100GB")
    } else {
        String::from_str("1x2xCPU-4GB-50GB")
    }
}

/// The Valkey plan for a Redis cache SKU and capacity.
pub open spec fn redis_plan(sku: Seq<char>, cap: Seq<char>) -> Seq<char> {
    if sku == "Basic"@ {
        if cap == "0"@ || cap == "1"@ { "1x1xCPU-2GB"@ } else { "1x2xCPU-4GB"@ }
    } else if sku == "Standard"@ {
        if cap == "0"@ || cap == "1"@ {
            "1x1xCPU-2GB"@
        } else if cap == "2"@ || cap == "3"@ {
            "1x2xCPU-4GB"@
        } else {
            "1x2xCPU-8GB"@
        }
    } else if sku == "Premium"@ {
        "1x4xCPU-28GB"@
    } else {
        "1x1xCPU-2GB"@
    }
}

fn redis_plan_exec(sku: &str, cap: &str) -> (r: String)
    ensures
        r@ == redis_plan(sku@, cap@),
{
    let s = chars_of(sku);
    let c = chars_of(cap);
    if eq_str(&s, "Basic") {
        if eq_str(&c, "0") || eq_str(&c, "1") { String::from_str("1x1xCPU-2GB") } else { String::from_str("1x2xCPU-4GB") }
    } else if eq_str(&s, "Standard") {
        if eq_str(&c, "0") || eq_str(&c, "1") {
            String::from_str("1x1xCPU-2GB")
        } else if eq_str(&c, "2") || eq_str(&c, "3") {
            String::from_str("1x2xCPU-4GB")
        } else {
            String::from_str("1x2xCPU-8GB")
        }
    } else if eq_str(&s, "Premium") {
        String::from_str("1x4xCPU-28GB")
    } else {
        String::from_str("1x1xCPU-2GB")
    }
}

/// The PostgreSQL resource that a flexible-server reference names.
pub open spec fn pg_server_ref(res: TerraformResource) -> Seq<char> {
    match res.attr("server_id"@) {
        Some(v) => match seg_after(v, "azurerm_postgresql_flexible_server."@) {
            Some(n) => "upcloud_managed_database_postgresql."@ + n,
            None => "upcloud_managed_database_postgresql.<TODO>"@,
        },
        None => "upcloud_managed_database_postgresql.<TODO>"@,
    }
}

fn pg_server_ref_exec(res: &TerraformResource) -> (r: String)
    ensures
        r@ == pg_server_ref(*res),
{
    match res.get_attr("server_id") {
        Some(v) => {
            let t = trim_char_v(&v, '"');
            if starts_with_exec(&t, "azurerm_postgresql_flexible_server.") {
                let pl = chars_of("azurerm_postgresql_flexible_server.").len();
                let n = t.len();
                let rest = slice_of(&t, pl, n);
                assert(rest@ =~= t@.skip("azurerm_postgresql_flexible_server."@.len() as int));
                let name = before_char_v(&rest, '.');
                cat2("upcloud_managed_database_postgresql.", string_of(&name).as_str())
            } else {
                String::from_str("upcloud_managed_database_postgresql.<TODO>")
            }
        },
        None => String::from_str("upcloud_managed_database_postgresql.<TODO>"),
    }
}

pub open spec fn spec_map_postgresql_server(res: TerraformResource) -> ResultModel {
    let sku = res.attr_trim_or("sku_name"@, "GP_Standard_D2s_v3"@);
    let plan = db_sku_plan(sku);
    let version = res.attr_trim_or("version"@, "16"@);
    let extra = "    version       = \""@ + version + "\""@;
    let body = spec_upcloud_managed_database_hcl("upcloud_managed_database_postgresql"@, res.name@, res.name@ + "-db"@, plan, "<TODO: upcloud_network UUID>"@, extra);
    let notes0 = Seq::<Seq<char>>::empty();
    let notes1 = notes0.push("Azure PostgreSQL (SKU: "@ + sku + ") → UpCloud Managed PostgreSQL (plan: "@ + plan + ")"@);
    let notes2 = notes1.push("Migrate DB parameters, connection strings, and firewall rules manually."@);
    let notes3 = notes2.push("Set network.uuid to the upcloud_network resource in the same zone."@);
    result_model(res, MigrationStatus::Compatible, "upcloud_managed_database_postgresql"@, Some(body), None, None, notes3)
}

/// `azurerm_postgresql_server` → managed PostgreSQL.
pub fn map_postgresql_server(res: &TerraformResource) -> (r: MigrationResult)
    ensures
        r@ == spec_map_postgresql_server(*res),
{
    let sku: String = string_of(&res.trimmed_or("sku_name", "GP_Standard_D2s_v3"));
    let plan: String = map_db_sku(sku.as_str());
    let version: String = string_of(&res.trimmed_or("version", "16"));
    let extra: String = cat3("    version       = \"", version.as_str(), "\"");
    let body: String = upcloud_managed_database_hcl("upcloud_managed_database_postgresql", res.name.as_str(), cat2(res.name.as_str(), "-db").as_str(), plan.as_str(), "<TODO: upcloud_network UUID>", extra.as_str());
    let mut hcl = String::new();
    push_str(&mut hcl, body.as_str());
    let mut notes: Vec<String> = Vec::new();
    let mut n0 = String::new();
    push_str(&mut n0, "Azure PostgreSQL (SKU: ");
    push_str(&mut n0, sku.as_str());
    push_str(&mut n0, ") → UpCloud Managed PostgreSQL (plan: ");
    push_str(&mut n0, plan.as_str());
    push_str(&mut n0, ")");
    push_note(&mut notes, n0);
    let mut n1 = String::new();
    push_str(&mut n1, "Migrate DB parameters, connection strings, and firewall rules manually.");
    push_note(&mut notes, n1);
    let mut n2 = String::new();
    push_str(&mut n2, "Set network.uuid to the upcloud_network resource in the same zone.");
    push_note(&mut notes, n2);
    new_result(res, MigrationStatus::Compatible, "upcloud_managed_database_postgresql", Some(hcl), None, None, notes)
}

pub open spec fn spec_map_postgresql_flexible_server(res: TerraformResource) -> ResultModel {
    let sku = res.attr_trim_or("sku_name"@, "GP_Standard_D2s_v3"@);
    let plan = db_sku_plan(sku);
    let version = res.attr_trim_or("version"@, "16"@);
    let extra = "    version       = \""@ + version + "\""@;
    let body = spec_upcloud_managed_database_hcl("upcloud_managed_database_postgresql"@, res.name@, res.name@ + "-db"@, plan, "<TODO: upcloud_network UUID>"@, extra);
    let notes0 = Seq::<Seq<char>>::empty();
    let notes1 = notes0.push("Azure PostgreSQL Flexible (SKU: "@ + sku + ") → UpCloud Managed PostgreSQL (plan: "@ + plan + ")"@);
    let notes2 = notes1.push("Migrate high availability, read replicas, and connection strings manually."@);
    result_model(res, MigrationStatus::Compatible, "upcloud_managed_database_postgresql"@, Some(body), None, None, notes2)
}

/// `azurerm_postgresql_flexible_server` → managed PostgreSQL.
pub fn map_postgresql_flexible_server(res: &TerraformResource) -> (r: MigrationResult)
    ensures
        r@ == spec_map_postgresql_flexible_server(*res),
{
    let sku: String = string_of(&res.trimmed_or("sku_name", "GP_Standard_D2s_v3"));
    let plan: String = map_db_sku(sku.as_str());
    let version: String = string_of(&res.trimmed_or("version", "16"));
    let extra: String = cat3("    version       = \"", version.as_str(), "\"");
    let body: String = upcloud_managed_database_hcl("upcloud_managed_database_postgresql", res.name.as_str(), cat2(res.name.as_str(), "-db").as_str(), plan.as_str(), "<TODO: upcloud_network UUID>", extra.as_str());
    let mut hcl = String::new();
    push_str(&mut hcl, body.as_str());
    let mut notes: Vec<String> = Vec::new();
    let mut n0 = String::new();
    push_str(&mut n0, "Azure PostgreSQL Flexible (SKU: ");
    push_str(&mut n0, sku.as_str());
    push_str(&mut n0, ") → UpCloud Managed PostgreSQL (plan: ");
    push_str(&mut n0, plan.as_str());
    push_str(&mut n0, ")");
    push_note(&mut notes, n0);
    let mut n1 = String::new();
    push_str(&mut n1, "Migrate high availability, read replicas, and connection strings manually.");
    push_note(&mut notes, n1);
    new_result(res, MigrationStatus::Compatible, "upcloud_managed_database_postgresql", Some(hcl), None, None, notes)
}

pub open spec fn spec_map_mysql_server(res: TerraformResource) -> ResultModel {
    let sku = res.attr_trim_or("sku_name"@, "GP_Standard_D2s_v3"@);
    let plan = db_sku_plan(sku);
    let version = res.attr_trim_or("version"@, "8.0"@);
    let extra = "    version       = \""@ + version + "\""@;
    let body = spec_upcloud_managed_database_hcl("upcloud_managed_database_mysql"@, res.name@, res.name@ + "-db"@, plan, "<TODO: upcloud_network UUID>"@, extra);
    let notes0 = Seq::<Seq<char>>::empty();
    let notes1 = notes0.push("Azure MySQL (SKU: "@ + sku + ") → UpCloud Managed MySQL (plan: "@ + plan + ")"@);
    let notes2 = notes1.push("Migrate DB parameters and connection strings manually."@);
    result_model(res, MigrationStatus::Compatible, "upcloud_managed_database_mysql"@, Some(body), None, None, notes2)
}

/// `azurerm_mysql_server` → managed MySQL.
pub fn map_mysql_server(res: &TerraformResource) -> (r: MigrationResult)
    ensures
        r@ == spec_map_mysql_server(*res),
{
    let sku: String = string_of(&res.trimmed_or("sku_name", "GP_Standard_D2s_v3"));
    let plan: String = map_db_sku(sku.as_str());
    let version: String = string_of(&res.trimmed_or("version", "8.0"));
    let extra: String = cat3("    version       = \"", version.as_str(), "\"");
    let body: String = upcloud_managed_database_hcl("upcloud_managed_database_mysql", res.name.as_str(), cat2(res.name.as_str(), "-db").as_str(), plan.as_str(), "<TODO: upcloud_network UUID>", extra.as_str());
    let mut hcl = String::new();
    push_str(&mut hcl, body.as_str());
    let mut notes: Vec<String> = Vec::new();
    let mut n0 = String::new();
    push_str(&mut n0, "Azure MySQL (SKU: ");
    push_str(&mut n0, sku.as_str());
    push_str(&mut n0, ") → UpCloud Managed MySQL (plan: ");
    push_str(&mut n0, plan.as_str());
    push_str(&mut n0, ")");
    push_note(&mut notes, n0);
    let mut n1 = String::new();
    push_str(&mut n1, "Migrate DB parameters and connection strings manually.");
    push_note(&mut notes, n1);
    new_result(res, MigrationStatus::Compatible, "upcloud_managed_database_mysql", Some(hcl), None, None, notes)
}

pub open spec fn spec_map_mysql_flexible_server(res: TerraformResource) -> ResultModel {
    let sku = res.attr_trim_or("sku_name"@, "GP_Standard_D2s_v3"@);
    let plan = db_sku_plan(sku);
    let body = spec_upcloud_managed_database_hcl("upcloud_managed_database_mysql"@, res.name@, res.name@ + "-db"@, plan, "<TODO: upcloud_network UUID>"@, ""@);
    let notes0 = Seq::<Seq<char>>::empty();
    let notes1 = notes0.push("Azure MySQL Flexible (SKU: "@ + sku + ") → UpCloud Managed MySQL (plan: "@ + plan + ")"@);
    let notes2 = notes1.push("Migrate high availability and connection strings manually."@);
    result_model(res, MigrationStatus::Compatible, "upcloud_managed_database_mysql"@, Some(body), None, None, notes2)
}

/// `azurerm_mysql_flexible_server` → managed MySQL.
pub fn map_mysql_flexible_server(res: &TerraformResource) -> (r: MigrationResult)
    ensures
        r@ == spec_map_mysql_flexible_server(*res),
{
    let sku: String = string_of(&res.trimmed_or("sku_name", "GP_Standard_D2s_v3"));
    let plan: String = map_db_sku(sku.as_str());
    let body: String = upcloud_managed_database_hcl("upcloud_managed_database_mysql", res.name.as_str(), cat2(res.name.as_str(), "-db").as_str(), plan.as_str(), "<TODO: upcloud_network UUID>", "");
    let mut hcl = String::new();
    push_str(&mut hcl, body.as_str());
    let mut notes: Vec<String> = Vec::new();
    let mut n0 = String::new();
    push_str(&mut n0, "Azure MySQL Flexible (SKU: ");
    push_str(&mut n0, sku.as_str());
    push_str(&mut n0, ") → UpCloud Managed MySQL (plan: ");
    push_str(&mut n0, plan.as_str());
    push_str(&mut n0, ")");
    push_note(&mut notes, n0);
    let mut n1 = String::new();
    push_str(&mut n1, "Migrate high availability and connection strings manually.");
    push_note(&mut notes, n1);
    new_result(res, MigrationStatus::Compatible, "upcloud_managed_database_mysql", Some(hcl), None, None, notes)
}

pub open spec fn spec_map_redis_cache(res: TerraformResource) -> ResultModel {
    let sku = res.attr_trim_or("sku_name"@, "Basic"@);
    let capacity = res.attr_trim_or("capacity"@, "1"@);
    let plan = redis_plan(sku, capacity);
    let body = spec_upcloud_managed_database_hcl("upcloud_managed_database_valkey"@, res.name@, res.name@ + "-cache"@, plan, "<TODO: upcloud_network UUID>"@, ""@);
    let notes0 = Seq::<Seq<char>>::empty();
    let notes1 = notes0.push("Azure Redis Cache ("@ + sku + "/"@ + capacity + ") → UpCloud Managed Valkey (plan: "@ + plan + ")"@);
    let notes2 = notes1.push("Valkey is Redis-compatible. Migrate connection strings and auth tokens."@);
    result_model(res, MigrationStatus::Compatible, "upcloud_managed_database_valkey"@, Some(body), None, None, notes2)
}

/// `azurerm_redis_cache` → managed Valkey, plan from SKU and capacity.
pub fn map_redis_cache(res: &TerraformResource) -> (r: MigrationResult)
    ensures
        r@ == spec_map_redis_cache(*res),
{
    let sku: String = string_of(&res.trimmed_or("sku_name", "Basic"));
    let capacity: String = string_of(&res.trimmed_or("capacity", "1"));
    let plan: String = redis_plan_exec(sku.as_str(), capacity.as_str());
    let body: String = upcloud_managed_database_hcl("upcloud_managed_database_valkey", res.name.as_str(), cat2(res.name.as_str(), "-cache").as_str(), plan.as_str(), "<TODO: upcloud_network UUID>", "");
    let mut hcl = String::new();
    push_str(&mut hcl, body.as_str());
    let mut notes: Vec<String> = Vec::new();
    let mut n0 = String::new();
    push_str(&mut n0, "Azure Redis Cache (");
    push_str(&mut n0, sku.as_str());
    push_str(&mut n0, "/");
    push_str(&mut n0, capacity.as_str());
    push_str(&mut n0, ") → UpCloud Managed Valkey (plan: ");
    push_str(&mut n0, plan.as_str());
    push_str(&mut n0, ")");
    push_note(&mut notes, n0);
    let mut n1 = String::new();
    push_str(&mut n1, "Valkey is Redis-compatible. Migrate connection strings and auth tokens.");
    push_note(&mut notes, n1);
    new_result(res, MigrationStatus::Compatible, "upcloud_managed_database_valkey", Some(hcl), None, None, notes)
}

pub open spec fn spec_map_postgresql_flexible_server_database(res: TerraformResource) -> ResultModel {
    let db_name = res.attr_trim_or("name"@, res.name@);
    let server_ref = pg_server_ref(res);
    let notes0 = Seq::<Seq<char>>::empty();
    let notes1 = notes0.push("UpCloud Managed PostgreSQL has no dedicated Terraform resource for sub-databases."@);
    let notes2 = notes1.push("Create the '"@ + db_name + "' database manually after provisioning "@ + server_ref + " or via an init script."@);
    result_model(res, MigrationStatus::Partial, "(no separate sub-database resource)"@, None, None, None, notes2)
}

/// A flexible-server database: created manually on the managed PostgreSQL.
pub fn map_postgresql_flexible_server_database(res: &TerraformResource) -> (r: MigrationResult)
    ensures
        r@ == spec_map_postgresql_flexible_server_database(*res),
{
    let db_name: String = string_of(&res.trimmed_or("name", res.name.as_str()));
    let server_ref: String = pg_server_ref_exec(res);
    let mut notes: Vec<String> = Vec::new();
    let mut n0 = String::new();
    push_str(&mut n0, "UpCloud Managed PostgreSQL has no dedicated Terraform resource for sub-databases.");
    push_note(&mut notes, n0);
    let mut n1 = String::new();
    push_str(&mut n1, "Create the '");
    push_str(&mut n1, db_name.as_str());
    push_str(&mut n1, "' database manually after provisioning ");
    push_str(&mut n1, server_ref.as_str());
    push_str(&mut n1, " or via an init script.");
    push_note(&mut notes, n1);
    new_result(res, MigrationStatus::Partial, "(no separate sub-database resource)", None, None, None, notes)
}

pub open spec fn spec_map_postgresql_flexible_server_configuration(res: TerraformResource) -> ResultModel {
    let config_name = res.attr_trim_or("name"@, res.name@);
    let config_value = res.attr_trim_or("value"@, ""@);
    let server_ref = pg_server_ref(res);
    let notes0 = Seq::<Seq<char>>::empty();
    let notes1 = notes0.push("PostgreSQL configuration '"@ + config_name + "' = '"@ + config_value + "' should be set in the properties block of "@ + server_ref + "."@);
    let notes2 = notes1.push("UpCloud Managed Database properties replace Azure server configurations."@);
    result_model(res, MigrationStatus::Partial, "properties block in upcloud_managed_database_postgresql"@, None, Some("  # Add to "@ + server_ref + ":\n  properties {\n    # "@ + config_name + " = \""@ + config_value + "\"\n  }\n"@), None, notes2)
}

/// A flexible-server configuration → a property of the managed PostgreSQL.
pub fn map_postgresql_flexible_server_configuration(res: &TerraformResource) -> (r: MigrationResult)
    ensures
        r@ == spec_map_postgresql_flexible_server_configuration(*res),
{
    let config_name: String = string_of(&res.trimmed_or("name", res.name.as_str()));
    let config_value: String = string_of(&res.trimmed_or("value", ""));
    let server_ref: String = pg_server_ref_exec(res);
    let mut snippet = String::new();
    push_str(&mut snippet, "  # Add to ");
    push_str(&mut snippet, server_ref.as_str());
    push_str(&mut snippet, ":\n  properties {\n    # ");
    push_str(&mut snippet, config_name.as_str());
    push_str(&mut snippet, " = \"");
    push_str(&mut snippet, config_value.as_str());
    push_str(&mut snippet, "\"\n  }\n");
    let mut notes: Vec<String> = Vec::new();
    let mut n0 = String::new();
    push_str(&mut n0, "PostgreSQL configuration '");
    push_str(&mut n0, config_name.as_str());
    push_str(&mut n0, "' = '");
    push_str(&mut n0, config_value.as_str());
    push_str(&mut n0, "' should be set in the properties block of ");
    push_str(&mut n0, server_ref.as_str());
    push_str(&mut n0, ".");
    push_note(&mut notes, n0);
    let mut n1 = String::new();
    push_str(&mut n1, "UpCloud Managed Database properties replace Azure server configurations.");
    push_note(&mut notes, n1);
    new_result(res, MigrationStatus::Partial, "properties block in upcloud_managed_database_postgresql", None, Some(snippet), None, notes)
}

pub open spec fn spec_map_cosmosdb_account(res: TerraformResource) -> ResultModel {
    let kind = res.attr_trim_or("kind"@, "GlobalDocumentDB"@);
    let notes0 = Seq::<Seq<char>>::empty();
    let notes1 = notes0.push("Azure CosmosDB ("@ + kind + ") has no direct UpCloud equivalent."@);
    let notes2 = notes1.push("Consider using UpCloud Managed PostgreSQL or MySQL for relational workloads."@);
    result_model(res, MigrationStatus::Unsupported, "(no CosmosDB equivalent)"@, None, None, None, notes2)
}

/// `azurerm_cosmosdb_account`: no equivalent.
pub fn map_cosmosdb_account(res: &TerraformResource) -> (r: MigrationResult)
    ensures
        r@ == spec_map_cosmosdb_account(*res),
{
    let kind: String = string_of(&res.trimmed_or("kind", "GlobalDocumentDB"));
    let mut notes: Vec<String> = Vec::new();
    let mut n0 = String::new();
    push_str(&mut n0, "Azure CosmosDB (");
    push_str(&mut n0, kind.as_str());
    push_str(&mut n0, ") has no direct UpCloud equivalent.");
    push_note(&mut notes, n0);
    let mut n1 = String::new();
    push_str(&mut n1, "Consider using UpCloud Managed PostgreSQL or MySQL for relational workloads.");
    push_note(&mut notes, n1);
    new_result(res, MigrationStatus::Unsupported, "(no CosmosDB equivalent)", None, None, None, notes)
}

pub open spec fn spec_map_mssql_server(res: TerraformResource) -> ResultModel {
    let notes0 = Seq::<Seq<char>>::empty();
    let notes1 = notes0.push("Azure SQL Database (MS SQL) has no direct UpCloud equivalent."@);
    let notes2 = notes1.push("Consider migrating to UpCloud Managed PostgreSQL or running SQL Server on an UpCloud server."@);
    result_model(res, MigrationStatus::Unsupported, "(no MS SQL equivalent)"@, None, None, None, notes2)
}

/// `azurerm_mssql_server`: no equivalent.
pub fn map_mssql_server(res: &TerraformResource) -> (r: MigrationResult)
    ensures
        r@ == spec_map_mssql_server(*res),
{
    let mut notes: Vec<String> = Vec::new();
    let mut n0 = String::new();
    push_str(&mut n0, "Azure SQL Database (MS SQL) has no direct UpCloud equivalent.");
    push_note(&mut notes, n0);
    let mut n1 = String::new();
    push_str(&mut n1, "Consider migrating to UpCloud Managed PostgreSQL or running SQL Server on an UpCloud server.");
    push_note(&mut notes, n1);
    new_result(res, MigrationStatus::Unsupported, "(no MS SQL equivalent)", None, None, None, notes)
}

pub open spec fn spec_map_mssql_database(res: TerraformResource) -> ResultModel {
    let notes0 = Seq::<Seq<char>>::empty();
    let notes1 = notes0.push("Azure SQL Database has no direct UpCloud equivalent."@);
    let notes2 = notes1.push("Consider migrating to UpCloud Managed PostgreSQL or MySQL."@);
    result_model(res, MigrationStatus::Unsupported, "(no MS SQL equivalent)"@, None, None, None, notes2)
}

/// `azurerm_mssql_database`: no equivalent.
pub fn map_mssql_database(res: &TerraformResource) -> (r: MigrationResult)
    ensures
        r@ == spec_map_mssql_database(*res),
{
    let mut notes: Vec<String> = Vec::new();
    let mut n0 = String::new();
    push_str(&mut n0, "Azure SQL Database has no direct UpCloud equivalent.");
    push_note(&mut notes, n0);
    let mut n1 = String::new();
    push_str(&mut n1, "Consider migrating to UpCloud Managed PostgreSQL or MySQL.");
    push_note(&mut notes, n1);
    new_result(res, MigrationStatus::Unsupported, "(no MS SQL equivalent)", None, None, None, notes)
}

/// The Valkey plan of an Azure Redis cache follows its tier and capacity: a Basic cache
/// of capacity 0 or 1 gets `1x1xCPU-2GB` and a larger one `1x2xCPU-4GB`; a Standard cache
/// gets `1x1xCPU-2GB`, `1x2xCPU-4GB` (capacity 2 or 3) or `1x2xCPU-8GB` (larger); a
/// Premium cache `1x4xCPU-28GB`. At equal capacity a higher tier never gets less memory.
pub proof fn redis_plan_follows_tier(cap: Seq<char>)
    ensures
        (cap == "0"@ || cap == "1"@) ==> redis_plan("Basic"@, cap) == "1x1xCPU-2GB"@ && redis_plan("Standard"@, cap) == "1x1xCPU-2GB"@,
        (cap == "2"@ || cap == "3"@) ==> redis_plan("Basic"@, cap) == "1x2xCPU-4GB"@ && redis_plan("Standard"@, cap) == "1x2xCPU-4GB"@,
        !(cap == "0"@ || cap == "1"@ || cap == "2"@ || cap == "3"@) ==> redis_plan("Basic"@, cap) == "1x2xCPU-4GB"@ && redis_plan("Standard"@, cap) == "1x2xCPU-8GB"@,
        redis_plan("Premium"@, cap) == "1x4xCPU-28GB"@,
        valkey_plan_memory(redis_plan("Basic"@, cap)) <= valkey_plan_memory(redis_plan("Standard"@, cap)),
        valkey_plan_memory(redis_plan("Standard"@, cap)) <= valkey_plan_memory(redis_plan("Premium"@, cap)),
        valkey_plan_memory(redis_plan("Basic"@, cap)) > 0,
{
    reveal_strlit("Basic");
    assert("Basic"@[0] == 'B');
    assert("Basic"@[1] == 'a');
    assert("Basic"@[2] == 's');
    assert("Basic"@[3] == 'i');
    assert("Basic"@[4] == 'c');
    reveal_strlit("Standard");
    assert("Standard"@[0] == 'S');
    assert("Standard"@[1] == 't');
    assert("Standard"@[2] == 'a');
    assert("Standard"@[3] == 'n');
    assert("Standard"@[4] == 'd');
    assert("Standard"@[5] == 'a');
    assert("Standard"@[6] == 'r');
    assert("Standard"@[7] == 'd');
    reveal_strlit("Premium");
    assert("Premium"@[0] == 'P');
    assert("Premium"@[1] == 'r');
    assert("Premium"@[2] == 'e');
    assert("Premium"@[3] == 'm');
    assert("Premium"@[4] == 'i');
    assert("Premium"@[5] == 'u');
    assert("Premium"@[6] == 'm');
    reveal_strlit("0");
    assert("0"@[0] == '0');
    reveal_strlit("1");
    assert("1"@[0] == '1');
    reveal_strlit("2");
    assert("2"@[0] == '2');
    reveal_strlit("3");
    assert("3"@[0] == '3');
    reveal_strlit("1x1xCPU-2GB");
    assert("1x1xCPU-2GB"@[0] == '1');
    assert("1x1xCPU-2GB"@[1] == 'x');
    assert("1x1xCPU-2GB"@[2] == '1');
    assert("1x1xCPU-2GB"@[3] == 'x');
    assert("1x1xCPU-2GB"@[4] == 'C');
    assert("1x1xCPU-2GB"@[5] == 'P');
    assert("1x1xCPU-2GB"@[6] == 'U');
    assert("1x1xCPU-2GB"@[7] == '-');
    assert("1x1xCPU-2GB"@[8] == '2');
    assert("1x1xCPU-2GB"@[9] == 'G');
    assert("1x1xCPU-2GB"@[10] == 'B');
    reveal_strlit("1x2xCPU-4GB");
    assert("1x2xCPU-4GB"@[0] == '1');
    assert("1x2xCPU-4GB"@[1] == 'x');
    assert("1x2xCPU-4GB"@[2] == '2');
    assert("1x2xCPU-4GB"@[3] == 'x');
    assert("1x2xCPU-4GB"@[4] == 'C');
    assert("1x2xCPU-4GB"@[5] == 'P');
    assert("1x2xCPU-4GB"@[6] == 'U');
    assert("1x2xCPU-4GB"@[7] == '-');
    assert("1x2xCPU-4GB"@[8] == '4');
    assert("1x2xCPU-4GB"@[9] == 'G');
    assert("1x2xCPU-4GB"@[10] == 'B');
    reveal_strlit("1x2xCPU-8GB");
    assert("1x2xCPU-8GB"@[0] == '1');
    assert("1x2xCPU-8GB"@[1] == 'x');
    assert("1x2xCPU-8GB"@[2] == '2');
    assert("1x2xCPU-8GB"@[3] == 'x');
    assert("1x2xCPU-8GB"@[4] == 'C');
    assert("1x2xCPU-8GB"@[5] == 'P');
    assert("1x2xCPU-8GB"@[6] == 'U');
    assert("1x2xCPU-8GB"@[7] == '-');
    assert("1x2xCPU-8GB"@[8] == '8');
    assert("1x2xCPU-8GB"@[9] == 'G');
    assert("1x2xCPU-8GB"@[10] == 'B');
    reveal_strlit("1x4xCPU-28GB");
    assert("1x4xCPU-28GB"@[0] == '1');
    assert("1x4xCPU-28GB"@[1] == 'x');
    assert("1x4xCPU-28GB"@[2] == '4');
    assert("1x4xCPU-28GB"@[3] == 'x');
    assert("1x4xCPU-28GB"@[4] == 'C');
    assert("1x4xCPU-28GB"@[5] == 'P');
    assert("1x4xCPU-28GB"@[6] == 'U');
    assert("1x4xCPU-28GB"@[7] == '-');
    assert("1x4xCPU-28GB"@[8] == '2');
    assert("1x4xCPU-28GB"@[9] == '8');
    assert("1x4xCPU-28GB"@[10] == 'G');
    assert("1x4xCPU-28GB"@[11] == 'B');
}

/// The database plan of an Azure SKU follows its tier: Burstable (`B_`) SKUs get
/// `1x1xCPU-2GB-25GB`, General Purpose (`GP_`) ones `1x2xCPU-4GB-50GB`, Memory Optimized
/// (`MO_`) ones `2x4xCPU-8GB-100GB`, and unknown SKUs the General Purpose plan; a higher
/// tier never gets less memory than a lower one.
pub proof fn db_sku_plan_follows_tier(burst: Seq<char>, gp: Seq<char>, mo: Seq<char>)
    ensures
        (contains(burst, "B_"@) || contains(burst, "Burstable"@)) ==> db_sku_plan(burst) == "1x1xCPU-2GB-25GB"@,
        !(contains(gp, "B_"@) || contains(gp, "Burstable"@)) && (contains(gp, "GP_"@) || contains(gp, "GeneralPurpose"@)) ==> db_sku_plan(gp) == "1x2xCPU-4GB-50GB"@,
        !(contains(mo, "B_"@) || contains(mo, "Burstable"@) || contains(mo, "GP_"@) || contains(mo, "GeneralPurpose"@)) && (contains(mo, "MO_"@) || contains(mo, "MemoryOptimized"@)) ==> db_sku_plan(mo) == "2x4xCPU-8GB-100GB"@,
        !(contains(gp, "B_"@) || contains(gp, "Burstable"@) || contains(gp, "GP_"@) || contains(gp, "GeneralPurpose"@) || contains(gp, "MO_"@) || contains(gp, "MemoryOptimized"@)) ==> db_sku_plan(gp) == "1x2xCPU-4GB-50GB"@,
        (contains(burst, "B_"@) || contains(burst, "Burstable"@)) ==> rds_plan_memory(db_sku_plan(burst)) <= rds_plan_memory(db_sku_plan(gp)),
        !(contains(gp, "B_"@) || contains(gp, "Burstable"@)) && !(contains(mo, "B_"@) || contains(mo, "Burstable"@) || contains(mo, "GP_"@) || contains(mo, "GeneralPurpose"@)) && (contains(mo, "MO_"@) || contains(mo, "MemoryOptimized"@))
            ==> rds_plan_memory(db_sku_plan(gp)) <= rds_plan_memory(db_sku_plan(mo)),
        rds_plan_memory(db_sku_plan(gp)) > 0,
{
    reveal_strlit("1x1xCPU-2GB-25GB");
    assert("1x1xCPU-2GB-25GB"@[0] == '1');
    assert("1x1xCPU-2GB-25GB"@[1] == 'x');
    assert("1x1xCPU-2GB-25GB"@[2] == '1');
    assert("1x1xCPU-2GB-25GB"@[3] == 'x');
    assert("1x1xCPU-2GB-25GB"@[4] == 'C');
    assert("1x1xCPU-2GB-25GB"@[5] == 'P');
    assert("1x1xCPU-2GB-25GB"@[6] == 'U');
    assert("1x1xCPU-2GB-25GB"@[7] == '-');
    assert("1x1xCPU-2GB-25GB"@[8] == '2');
    assert("1x1xCPU-2GB-25GB"@[9] == 'G');
    assert("1x1xCPU-2GB-25GB"@[10] == 'B');
    assert("1x1xCPU-2GB-25GB"@[11] == '-');
    assert("1x1xCPU-2GB-25GB"@[12] == '2');
    assert("1x1xCPU-2GB-25GB"@[13] == '5');
    assert("1x1xCPU-2GB-25GB"@[14] == 'G');
    assert("1x1xCPU-2GB-25GB"@[15] == 'B');
    reveal_strlit("1x2xCPU-4GB-50GB");
    assert("1x2xCPU-4GB-50GB"@[0] == '1');
    assert("1x2xCPU-4GB-50GB"@[1] == 'x');
    assert("1x2xCPU-4GB-50GB"@[2] == '2');
    assert("1x2xCPU-4GB-50GB"@[3] == 'x');
    assert("1x2xCPU-4GB-50GB"@[4] == 'C');
    assert("1x2xCPU-4GB-50GB"@[5] == 'P');
    assert("1x2xCPU-4GB-50GB"@[6] == 'U');
    assert("1x2xCPU-4GB-50GB"@[7] == '-');
    assert("1x2xCPU-4GB-50GB"@[8] == '4');
    assert("1x2xCPU-4GB-50GB"@[9] == 'G');
    assert("1x2xCPU-4GB-50GB"@[10] == 'B');
    assert("1x2xCPU-4GB-50GB"@[11] == '-');
    assert("1x2xCPU-4GB-50GB"@[12] == '5');
    assert("1x2xCPU-4GB-50GB"@[13] == '0');
    assert("1x2xCPU-4GB-50GB"@[14] == 'G');
    assert("1x2xCPU-4GB-50GB"@[15] == 'B');
    reveal_strlit("2x4xCPU-8GB-100GB");
    assert("2x4xCPU-8GB-100GB"@[0] == '2');
    assert("2x4xCPU-8GB-100GB"@[1] == 'x');
    assert("2x4xCPU-8GB-100GB"@[2] == '4');
    assert("2x4xCPU-8GB-100GB"@[3] == 'x');
    assert("2x4xCPU-8GB-100GB"@[4] == 'C');
    assert("2x4xCPU-8GB-100GB"@[5] == 'P');
    assert("2x4xCPU-8GB-100GB"@[6] == 'U');
    assert("2x4xCPU-8GB-100GB"@[7] == '-');
    assert("2x4xCPU-8GB-100GB"@[8] == '8');
    assert("2x4xCPU-8GB-100GB"@[9] == 'G');
    assert("2x4xCPU-8GB-100GB"@[10] == 'B');
    assert("2x4xCPU-8GB-100GB"@[11] == '-');
    assert("2x4xCPU-8GB-100GB"@[12] == '1');
    assert("2x4xCPU-8GB-100GB"@[13] == '0');
    assert("2x4xCPU-8GB-100GB"@[14] == '0');
    assert("2x4xCPU-8GB-100GB"@[15] == 'G');
    assert("2x4xCPU-8GB-100GB"@[16] == 'B');
    reveal_strlit("2x6xCPU-16GB-100GB");
    assert("2x6xCPU-16GB-100GB"@[0] == '2');
    assert("2x6xCPU-16GB-100GB"@[1] == 'x');
    assert("2x6xCPU-16GB-100GB"@[2] == '6');
    assert("2x6xCPU-16GB-100GB"@[3] == 'x');
    assert("2x6xCPU-16GB-100GB"@[4] == 'C');
    assert("2x6xCPU-16GB-100GB"@[5] == 'P');
    assert("2x6xCPU-16GB-100GB"@[6] == 'U');
    assert("2x6xCPU-16GB-100GB"@[7] == '-');
    assert("2x6xCPU-16GB-100GB"@[8] == '1');
    assert("2x6xCPU-16GB-100GB"@[9] == '6');
    assert("2x6xCPU-16GB-100GB"@[10] == 'G');
    assert("2x6xCPU-16GB-100GB"@[11] == 'B');
    assert("2x6xCPU-16GB-100GB"@[12] == '-');
    assert("2x6xCPU-16GB-100GB"@[13] == '1');
    assert("2x6xCPU-16GB-100GB"@[14] == '0');
    assert("2x6xCPU-16GB-100GB"@[15] == '0');
    assert("2x6xCPU-16GB-100GB"@[16] == 'G');
    assert("2x6xCPU-16GB-100GB"@[17] == 'B');
}

} // verus!
