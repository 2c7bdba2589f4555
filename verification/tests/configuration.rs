use config_init::initialize::{derived, ArgsMethods, SemanticInvalid, TargetFromArgs};
use config_init::summarize::{Summarize, Summary, SummaryView};
use config_init::toml_parse::{
    bound, load_source, load_toml, section, top_table, ConfigError, FromConfig, TableModel,
};

fn number(table: &toml::Table, name: &str) -> Result<u32, String> {
    match table.get(name) {
        None => Err(format!("missing field `{}`", name)),
        Some(value) => match value.as_integer() {
            None => Err(format!("invalid type for field `{}`", name)),
            Some(i) => u32::try_from(i).map_err(|_| format!("invalid value for field `{}`", name)),
        },
    }
}

#[derive(Debug, PartialEq)]
struct Args {
    x: u32,
    y: u32,
}

impl FromConfig for Args {
    // The model is read by the verifier alone; nothing runs it.
    fn record_of(_entries: TableModel) -> Option<Self> {
        unreachable!()
    }

    fn from_table(table: toml::Table) -> Result<Self, String> {
        Ok(Args { x: number(&table, "x")?, y: number(&table, "y")? })
    }
}

#[derive(Debug, PartialEq)]
struct TargetStruct {
    x2: u32,
    xy: u32,
    y2: u32,
}

impl ArgsMethods for Args {
    type Target = TargetStruct;

    fn target_of(&self) -> Option<TargetStruct> {
        Some(TargetStruct {
            x2: self.x.checked_mul(self.x)?,
            xy: self.x.checked_mul(self.y)?,
            y2: self.y.checked_mul(self.y)?,
        })
    }

    fn initialize_target(&self) -> Result<TargetStruct, SemanticInvalid> {
        self.target_of().ok_or(SemanticInvalid { message: "a product is too large".to_string() })
    }
}

impl TargetFromArgs<Args> for TargetStruct {}

#[derive(Debug, PartialEq)]
struct Sides {
    x: u32,
    y: u32,
}

impl FromConfig for Sides {
    fn record_of(_entries: TableModel) -> Option<Self> {
        unreachable!()
    }

    fn from_table(table: toml::Table) -> Result<Self, String> {
        Ok(Sides { x: number(&table, "x")?, y: number(&table, "y")? })
    }
}

#[derive(Debug, PartialEq)]
struct Area {
    x: u32,
    y: u32,
    area: u32,
}

impl ArgsMethods for Sides {
    type Target = Area;

    fn target_of(&self) -> Option<Area> {
        Some(Area { x: self.x, y: self.y, area: self.x.checked_mul(self.y)? })
    }

    fn initialize_target(&self) -> Result<Area, SemanticInvalid> {
        self.target_of().ok_or(SemanticInvalid { message: "the area is too large".to_string() })
    }
}

impl TargetFromArgs<Sides> for Area {}

impl Summarize for Area {
    fn summary_of(&self) -> SummaryView {
        unreachable!()
    }

    fn get_summary(&self) -> Summary {
        Summary {
            parameters: vec![Some(format!("x={},y={}", self.x, self.y))],
            state: vec![Some(format!("area={}", self.area))],
        }
    }
}

fn sample() -> toml::Table {
    load_toml("title = \"shapes\"\nsizes = [1, 2]\n\n[box]\nx = 3\ny = 4\n\n[half]\nx = 3\n")
        .unwrap()
}

#[test]
fn initialize_target() {
    let args = Args { x: 1, y: 2 };

    let target = TargetStruct::new(&args).unwrap();

    println!("x^2 = {0}, xy = {1}, y^2 = {2}.", target.x2, target.xy, target.y2,);
}

#[test]
fn target_is_made_of_products() {
    let args = Args { x: 1, y: 2 };
    assert_eq!(TargetStruct::new(&args), Ok(TargetStruct { x2: 1, xy: 2, y2: 4 }));
}

#[test]
fn transformation_is_repeatable() {
    let a = Args { x: 5, y: 7 };
    let b = Args { x: 5, y: 7 };
    assert_eq!(a.initialize_target(), b.initialize_target());
    assert_eq!(a.initialize_target(), a.initialize_target());
    assert_eq!(TargetStruct::new(&a), TargetStruct::new(&b));
}

#[test]
fn semantic_failure_is_reported() {
    let args = Args { x: 70000, y: 1 };
    assert_eq!(
        TargetStruct::new(&args),
        Err(ConfigError::SemanticInvalid { message: "a product is too large".to_string() })
    );
}

#[test]
fn derived_keeps_target_and_message() {
    assert_eq!(derived(Ok::<u32, SemanticInvalid>(12)), Ok(12));
    assert_eq!(
        derived::<u32>(Err(SemanticInvalid { message: "x exceeds y".to_string() })),
        Err(ConfigError::SemanticInvalid { message: "x exceeds y".to_string() })
    );
}

#[test]
fn load_parses_tables() {
    let table = load_toml("[box]\nx = 3\ny = 4\n").unwrap();
    let mut inner = toml::Table::new();
    inner.insert("x".to_string(), toml::Value::Integer(3));
    inner.insert("y".to_string(), toml::Value::Integer(4));
    let mut expected = toml::Table::new();
    expected.insert("box".to_string(), toml::Value::Table(inner));
    assert_eq!(table, expected);
}

#[test]
fn load_accepts_empty_text() {
    assert_eq!(load_toml(""), Ok(toml::Table::new()));
}

#[test]
fn load_refuses_malformed_text() {
    assert!(matches!(load_toml("[box\nx = "), Err(ConfigError::MalformedConfig { .. })));
    assert!(matches!(load_toml("x = 1\nx = 2\n"), Err(ConfigError::MalformedConfig { .. })));
}

#[test]
fn top_level_must_be_a_table() {
    assert!(matches!(
        top_table(&toml::Value::Integer(1)),
        Err(ConfigError::MalformedConfig { .. })
    ));
    let mut inner = toml::Table::new();
    inner.insert("x".to_string(), toml::Value::Boolean(true));
    assert_eq!(top_table(&toml::Value::Table(inner.clone())), Ok(inner));
}

#[test]
fn unreadable_source_is_reported() {
    assert_eq!(
        load_source("this_file_doesnt_exist.txt", None),
        Err(ConfigError::SourceUnreadable { path: "this_file_doesnt_exist.txt".to_string() })
    );
    assert_eq!(
        load_source("config.toml", Some("[box]\nx = 3\ny = 4\n".to_string())),
        load_toml("[box]\nx = 3\ny = 4\n")
    );
}

#[test]
fn section_copies_the_sub_table() {
    let mut expected = toml::Table::new();
    expected.insert("x".to_string(), toml::Value::Integer(3));
    expected.insert("y".to_string(), toml::Value::Integer(4));
    let config = sample();
    assert_eq!(section(&config, "box"), Ok(expected));
    assert_eq!(config, sample());
}

#[test]
fn missing_section_is_named() {
    let config = sample();
    let missing = Err(ConfigError::MissingSection { section: "circle".to_string() });
    assert_eq!(section(&config, "circle"), missing);
    assert_eq!(Args::from_config(&config, "circle"), Err(ConfigError::MissingSection {
        section: "circle".to_string()
    }));
    assert_eq!(TargetStruct::from_config(&config, "circle"), Err(ConfigError::MissingSection {
        section: "circle".to_string()
    }));
    assert_eq!(Args::from_config(&toml::Table::new(), "box"), Err(ConfigError::MissingSection {
        section: "box".to_string()
    }));
}

#[test]
fn scalar_or_sequence_is_no_section() {
    let config = sample();
    assert_eq!(
        section(&config, "title"),
        Err(ConfigError::WrongShape { section: "title".to_string() })
    );
    assert_eq!(
        Args::from_config(&config, "sizes"),
        Err(ConfigError::WrongShape { section: "sizes".to_string() })
    );
    assert_eq!(
        TargetStruct::from_config(&config, "title"),
        Err(ConfigError::WrongShape { section: "title".to_string() })
    );
}

#[test]
fn binding_reads_every_field() {
    let config = sample();
    assert_eq!(Args::from_config(&config, "box"), Ok(Args { x: 3, y: 4 }));
    assert_eq!(Args::from_config(&config, "box"), Args::from_config(&config, "box"));
}

#[test]
fn unsatisfied_field_is_a_mismatch() {
    let config = sample();
    assert_eq!(
        Args::from_config(&config, "half"),
        Err(ConfigError::FieldMismatch {
            section: "half".to_string(),
            message: "missing field `y`".to_string()
        })
    );
    let wrong = load_toml("[box]\nx = \"three\"\ny = 4\n").unwrap();
    assert_eq!(
        TargetStruct::from_config(&wrong, "box"),
        Err(ConfigError::FieldMismatch {
            section: "box".to_string(),
            message: "invalid type for field `x`".to_string()
        })
    );
}

#[test]
fn bound_keeps_record_and_names_section() {
    assert_eq!(bound("box", Ok::<u32, String>(7)), Ok(7));
    assert_eq!(
        bound::<u32>("box", Err("missing field `y`".to_string())),
        Err(ConfigError::FieldMismatch {
            section: "box".to_string(),
            message: "missing field `y`".to_string()
        })
    );
}

#[test]
fn target_from_configuration() {
    let config = sample();
    assert_eq!(
        TargetStruct::from_config(&config, "box"),
        Ok(TargetStruct { x2: 9, xy: 12, y2: 16 })
    );
}

#[test]
fn box_end_to_end() {
    let config = load_toml("[box]\nx = 3\ny = 4\n").unwrap();
    let target = Area::from_config(&config, "box").unwrap();
    assert_eq!(target.area, 12);
    let summary = target.get_summary();
    assert_eq!(summary.parameters, vec![Some("x=3,y=4".to_string())]);
    assert_eq!(summary.state, vec![Some("area=12".to_string())]);
    assert_eq!(
        summary.summary_lines(),
        Ok(vec!["x=3,y=4".to_string(), "area=12".to_string()])
    );
    assert_eq!(target.summary_text(), Ok("x=3,y=4\narea=12\n".to_string()));
}
