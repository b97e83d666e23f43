use sqldb::{
    BindValue, Crontask, DbError, ExecKind, ResultSet, Statement, StatementResult,
};
use sqlx::sqlite::{SqlitePool, SqlitePoolOptions};

fn runtime() -> tokio::runtime::Runtime {
    tokio::runtime::Builder::new_current_thread().enable_all().build().unwrap()
}

async fn memory_pool() -> SqlitePool {
    SqlitePoolOptions::new().max_connections(1).connect("sqlite::memory:").await.unwrap()
}

async fn run(pool: &SqlitePool, stmt: Statement) -> Result<StatementResult, DbError> {
    let binds = stmt.bind_values();
    let mut query = sqlx::query(stmt.sql());
    for b in binds {
        query = match b {
            BindValue::I32(v) => query.bind(v),
            BindValue::I64(v) => query.bind(v),
            BindValue::Text(v) => query.bind(v),
            BindValue::Bool(v) => query.bind(v),
            BindValue::NullInt => query.bind(None::<i32>),
        };
    }
    match stmt.kind() {
        ExecKind::Query => {
            let rows = query.fetch_all(pool).await.map_err(DbError::Execution)?;
            Ok(StatementResult::Query(ResultSet::from_rows(rows)))
        }
        ExecKind::Update => {
            let done = query.execute(pool).await.map_err(DbError::Execution)?;
            Ok(StatementResult::Update(done.rows_affected()))
        }
    }
}

fn sample() -> Crontask {
    Crontask {
        id: 12,
        dept_id: 1,
        name: "John Doe".to_string(),
        hire_date: "2025-03-07 17:53:12".to_string(),
        active: true,
    }
}

#[test]
fn create_table_text() {
    assert_eq!(
        Crontask::create_table_sql(),
        "CREATE TABLE IF NOT EXISTS crontask (id INTEGER, dept_id INTEGER, name VARCHAR(55), hire_date VARCHAR(19), active BOOLEAN, PRIMARY KEY (id, dept_id))"
    );
    assert_eq!(Crontask::init_statement().sql(), Crontask::create_table_sql());
    assert_eq!(Crontask::init_statement().param_count(), 0);
}

#[test]
fn insert_binds_fields_in_declaration_order() {
    let s = sample().insert_statement();
    assert_eq!(
        s.sql(),
        "INSERT INTO crontask (id, dept_id, name, hire_date, active) VALUES (?, ?, ?, ?, ?)"
    );
    let b = s.bind_values();
    assert_eq!(b.len(), 5);
    assert!(matches!(b[0], BindValue::I32(12)));
    assert!(matches!(b[1], BindValue::I32(1)));
    assert!(matches!(&b[2], BindValue::Text(t) if t == "John Doe"));
    assert!(matches!(&b[3], BindValue::Text(t) if t == "2025-03-07 17:53:12"));
    assert!(matches!(b[4], BindValue::Bool(true)));
    assert_eq!(s.kind(), ExecKind::Update);
}

#[test]
fn insert_then_query_scenario() {
    runtime().block_on(async {
        let pool = memory_pool().await;
        run(&pool, Crontask::init_statement()).await.unwrap().into_update().unwrap();
        let n = run(&pool, sample().insert_statement()).await.unwrap().into_update().unwrap();
        assert_eq!(n, 1);
        let stmt = Statement::new("select * from crontask where id >= ?").set_param(1);
        let rs = run(&pool, stmt).await.unwrap().into_query().unwrap();
        assert_eq!(rs.rows(), 1);
        let rows = rs.iter();
        assert_eq!(rows.len(), 1);
        let id: i32 = rows[0].get("id").unwrap();
        let name: String = rows[0].get("name").unwrap();
        assert_eq!(id, 12);
        assert_eq!(name, "John Doe");
    });
}

#[test]
fn insert_then_lookup_round_trip() {
    runtime().block_on(async {
        let pool = memory_pool().await;
        run(&pool, Crontask::init_statement()).await.unwrap().into_update().unwrap();
        let c = sample();
        run(&pool, c.insert_statement()).await.unwrap().into_update().unwrap();
        let other = Crontask { id: 13, dept_id: 2, name: "Ann".to_string(), ..sample() };
        run(&pool, other.insert_statement()).await.unwrap().into_update().unwrap();
        let rs = run(&pool, c.query_statement()).await.unwrap().into_query().unwrap();
        assert_eq!(rs.rows(), 1);
        let back = Crontask::from_row(&rs.iter()[0]).unwrap();
        assert_eq!(back, c);
        let i: i64 = rs.iter()[0].get("id").unwrap();
        assert_eq!(i, 12);
    });
}

#[test]
fn duplicate_insert_is_an_execution_error() {
    runtime().block_on(async {
        let pool = memory_pool().await;
        run(&pool, Crontask::init_statement()).await.unwrap().into_update().unwrap();
        run(&pool, sample().insert_statement()).await.unwrap().into_update().unwrap();
        let again = run(&pool, sample().insert_statement()).await;
        assert!(matches!(again, Err(DbError::Execution(_))));
    });
}

#[test]
fn missing_column_is_column_not_found() {
    runtime().block_on(async {
        let pool = memory_pool().await;
        let rs = run(&pool, Statement::new("SELECT 1 AS a, 'x' AS b")).await.unwrap()
            .into_query().unwrap();
        let rows = rs.iter();
        match rows[0].get::<i32>("nope") {
            Err(DbError::ColumnNotFound(n)) => assert_eq!(n, "nope"),
            _ => panic!("expected ColumnNotFound"),
        }
        match rows[0].get::<String>("nope") {
            Err(DbError::ColumnNotFound(n)) => assert_eq!(n, "nope"),
            _ => panic!("expected ColumnNotFound"),
        }
        assert!(matches!(Crontask::from_row(&rows[0]), Err(DbError::ColumnNotFound(n)) if n == "id"));
    });
}

#[test]
fn wrong_cell_type_is_decode_error() {
    runtime().block_on(async {
        let pool = memory_pool().await;
        let rs = run(&pool, Statement::new("SELECT 'text' AS a")).await.unwrap()
            .into_query().unwrap();
        let rows = rs.iter();
        assert!(matches!(rows[0].get::<i32>("a"), Err(DbError::Decode(_))));
        let a: String = rows[0].get("a").unwrap();
        assert_eq!(a, "text");
    });
}

#[test]
fn repeated_column_name_resolves_to_last() {
    runtime().block_on(async {
        let pool = memory_pool().await;
        let rs = run(&pool, Statement::new("SELECT 1 AS a, 2 AS a, 3 AS b")).await.unwrap()
            .into_query().unwrap();
        assert_eq!(rs.column_index("a"), Some(1));
        assert_eq!(rs.column_index("b"), Some(2));
        assert_eq!(rs.column_index("c"), None);
        let a: i32 = rs.iter()[0].get("a").unwrap();
        assert_eq!(a, 2);
    });
}

#[test]
fn query_with_no_rows_has_empty_index() {
    runtime().block_on(async {
        let pool = memory_pool().await;
        run(&pool, Crontask::init_statement()).await.unwrap().into_update().unwrap();
        let rs = run(&pool, sample().query_statement()).await.unwrap().into_query().unwrap();
        assert_eq!(rs.rows(), 0);
        assert!(rs.iter().is_empty());
        assert_eq!(rs.column_index("id"), None);
    });
}

#[test]
fn update_path_on_real_query_fails() {
    runtime().block_on(async {
        let pool = memory_pool().await;
        let r = run(&pool, Statement::new("  select 1")).await.unwrap();
        assert!(matches!(r.into_update(), Err(DbError::WrongResultShape)));
        let r = run(&pool, Crontask::init_statement()).await.unwrap();
        assert!(matches!(r.into_query(), Err(DbError::WrongResultShape)));
    });
}

#[test]
fn null_param_binds() {
    runtime().block_on(async {
        let pool = memory_pool().await;
        let rs = run(&pool, Statement::new("SELECT ? IS NULL AS n").set_param(None::<String>))
            .await.unwrap().into_query().unwrap();
        let n: bool = rs.iter()[0].get("n").unwrap();
        assert!(n);
    });
}

#[test]
fn column_index_follows_first_row_positions() {
    runtime().block_on(async {
        let pool = memory_pool().await;
        run(&pool, Crontask::init_statement()).await.unwrap().into_update().unwrap();
        run(&pool, sample().insert_statement()).await.unwrap().into_update().unwrap();
        let rs = run(&pool, Statement::new("SELECT * FROM crontask")).await.unwrap()
            .into_query().unwrap();
        assert_eq!(rs.column_index("id"), Some(0));
        assert_eq!(rs.column_index("dept_id"), Some(1));
        assert_eq!(rs.column_index("name"), Some(2));
        assert_eq!(rs.column_index("hire_date"), Some(3));
        assert_eq!(rs.column_index("active"), Some(4));
        assert_eq!(rs.column_index("ID"), None);
    });
}

#[test]
fn views_read_rows_in_order_and_iter_restarts() {
    runtime().block_on(async {
        let pool = memory_pool().await;
        run(&pool, Crontask::init_statement()).await.unwrap().into_update().unwrap();
        for (id, name) in [(3, "c"), (1, "a"), (2, "b")] {
            let c = Crontask { id, name: name.to_string(), ..sample() };
            run(&pool, c.insert_statement()).await.unwrap().into_update().unwrap();
        }
        let rs = run(&pool, Statement::new("SELECT id, name FROM crontask ORDER BY id")).await
            .unwrap().into_query().unwrap();
        assert_eq!(rs.rows(), 3);
        let first: Vec<i32> = rs.iter().iter().map(|r| r.get::<i32>("id").unwrap()).collect();
        let second: Vec<i32> = rs.iter().iter().map(|r| r.get::<i32>("id").unwrap()).collect();
        assert_eq!(first, vec![1, 2, 3]);
        assert_eq!(first, second);
        let names: Vec<String> = rs.iter().iter().map(|r| r.get::<String>("name").unwrap()).collect();
        assert_eq!(names, vec!["a".to_string(), "b".to_string(), "c".to_string()]);
    });
}

#[test]
fn from_row_reads_every_field() {
    runtime().block_on(async {
        let pool = memory_pool().await;
        let rs = run(&pool, Statement::new(
            "SELECT 7 AS id, 2 AS dept_id, 'Kim' AS name, '2024-01-01 00:00:00' AS hire_date, 0 AS active",
        )).await.unwrap().into_query().unwrap();
        let c = Crontask::from_row(&rs.iter()[0]).unwrap();
        assert_eq!(c, Crontask {
            id: 7,
            dept_id: 2,
            name: "Kim".to_string(),
            hire_date: "2024-01-01 00:00:00".to_string(),
            active: false,
        });
    });
}
