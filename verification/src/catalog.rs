//! Batches and their content records, and how a row of the catalog becomes
//! one of them.

use vstd::prelude::*;
use crate::error::{RunError, RunErrorView};
use crate::row::{
    ColumnView,
    RawRow,
    int4_of,
    int8_of,
    missing,
    row_views,
    text_of,
    text_or_default_of,
    time_of,
};
use crate::timestamp::Timestamp;

verus! {

/// A batch: content items that were handed in together.
#[derive(Clone, Debug, PartialEq, Eq)]
pub struct Batch {
    /// The key of the batch's row, by which its records point to it.
    pub row_id: i32,
    /// The identifier under which the batch is known outside the catalog.
    pub batch_id: String,
    pub description: String,
    /// The content partner that handed the batch in, where the catalog
    /// names one.
    pub cp_id: String,
    pub status: String,
    /// The host on which the files of the batch lie.
    pub host: String,
    /// The directory of the batch on that host.
    pub path: String,
    pub created_at: Timestamp,
    pub last_modified_at: Timestamp,
}

/// A `Batch` with its texts as sequences of characters.
pub struct BatchView {
    pub row_id: i32,
    pub batch_id: Seq<char>,
    pub description: Seq<char>,
    pub cp_id: Seq<char>,
    pub status: Seq<char>,
    pub host: Seq<char>,
    pub path: Seq<char>,
    pub created_at: Timestamp,
    pub last_modified_at: Timestamp,
}

impl View for Batch {
    type V = BatchView;

    open spec fn view(&self) -> BatchView {
        BatchView {
            row_id: self.row_id,
            batch_id: self.batch_id@,
            description: self.description@,
            cp_id: self.cp_id@,
            status: self.status@,
            host: self.host@,
            path: self.path@,
            created_at: self.created_at,
            last_modified_at: self.last_modified_at,
        }
    }
}

/// Batches, as a listing holds them.
#[derive(Clone, Debug, PartialEq, Eq)]
pub struct Batches {
    pub batches: Vec<Batch>,
}

/// A content record: one file of a batch, with what the catalog knows of it.
#[derive(Clone, Debug, PartialEq, Eq)]
pub struct BatchRecord {
    pub row_id: i32,
    /// The `row_id` of the batch that the record belongs to.
    pub batch_row_id: i32,
    /// The identifier that the item has with its owner.
    pub dc_identifier_localid: String,
    pub dc_title: String,
    /// The name of the content file, with or without directories.
    pub filename: String,
    pub filesize: i64,
    /// The checksum of the content file, as the catalog has it.
    pub md5_hash: String,
    pub created_at: Timestamp,
    pub last_modified_at: Timestamp,
}

/// A `BatchRecord` with its texts as sequences of characters.
pub struct BatchRecordView {
    pub row_id: i32,
    pub batch_row_id: i32,
    pub dc_identifier_localid: Seq<char>,
    pub dc_title: Seq<char>,
    pub filename: Seq<char>,
    pub filesize: i64,
    pub md5_hash: Seq<char>,
    pub created_at: Timestamp,
    pub last_modified_at: Timestamp,
}

impl View for BatchRecord {
    type V = BatchRecordView;

    open spec fn view(&self) -> BatchRecordView {
        BatchRecordView {
            row_id: self.row_id,
            batch_row_id: self.batch_row_id,
            dc_identifier_localid: self.dc_identifier_localid@,
            dc_title: self.dc_title@,
            filename: self.filename@,
            filesize: self.filesize,
            md5_hash: self.md5_hash@,
            created_at: self.created_at,
            last_modified_at: self.last_modified_at,
        }
    }
}

/// The batch that `row` describes. The row must hold `row_id`, `batch_id`
/// and `created_at`; the first of them that it lacks is the error.
/// `description`, `cp_id`, `status`, `host` and `path` are the word `default`
/// where the row holds no text for them. The table of batches keeps no time
/// of change: both times of the batch are `created_at`.
pub open spec fn batch_of_row(row: Seq<ColumnView>) -> Result<BatchView, RunErrorView> {
    if int4_of(row, "row_id"@) is None {
        Err(missing("row_id"@))
    } else if text_of(row, "batch_id"@) is None {
        Err(missing("batch_id"@))
    } else if time_of(row, "created_at"@) is None {
        Err(missing("created_at"@))
    } else {
        Ok(
            BatchView {
                row_id: int4_of(row, "row_id"@)->0,
                batch_id: text_of(row, "batch_id"@)->0,
                description: text_or_default_of(row, "description"@),
                cp_id: text_or_default_of(row, "cp_id"@),
                status: text_or_default_of(row, "status"@),
                host: text_or_default_of(row, "host"@),
                path: text_or_default_of(row, "path"@),
                created_at: time_of(row, "created_at"@)->0,
                last_modified_at: time_of(row, "created_at"@)->0,
            },
        )
    }
}

/// The content record that `row` describes. The row must hold every field
/// of the record under the field's name; the first that it lacks, in the
/// order of the fields, is the error.
pub open spec fn record_of_row(row: Seq<ColumnView>) -> Result<BatchRecordView, RunErrorView> {
    if int4_of(row, "row_id"@) is None {
        Err(missing("row_id"@))
    } else if int4_of(row, "batch_row_id"@) is None {
        Err(missing("batch_row_id"@))
    } else if text_of(row, "dc_identifier_localid"@) is None {
        Err(missing("dc_identifier_localid"@))
    } else if text_of(row, "dc_title"@) is None {
        Err(missing("dc_title"@))
    } else if text_of(row, "filename"@) is None {
        Err(missing("filename"@))
    } else if int8_of(row, "filesize"@) is None {
        Err(missing("filesize"@))
    } else if text_of(row, "md5_hash"@) is None {
        Err(missing("md5_hash"@))
    } else if time_of(row, "created_at"@) is None {
        Err(missing("created_at"@))
    } else if time_of(row, "last_modified_at"@) is None {
        Err(missing("last_modified_at"@))
    } else {
        Ok(
            BatchRecordView {
                row_id: int4_of(row, "row_id"@)->0,
                batch_row_id: int4_of(row, "batch_row_id"@)->0,
                dc_identifier_localid: text_of(row, "dc_identifier_localid"@)->0,
                dc_title: text_of(row, "dc_title"@)->0,
                filename: text_of(row, "filename"@)->0,
                filesize: int8_of(row, "filesize"@)->0,
                md5_hash: text_of(row, "md5_hash"@)->0,
                created_at: time_of(row, "created_at"@)->0,
                last_modified_at: time_of(row, "last_modified_at"@)->0,
            },
        )
    }
}

/// The batch that the rows found for one batch identifier stand for: the
/// one row, if it is one. No row means that the batch is not there; more
/// than one, that the identifier is ambiguous. The first row is never
/// picked from several.
pub open spec fn resolved(rows: Seq<Seq<ColumnView>>) -> Result<BatchView, RunErrorView> {
    if rows.len() == 0 {
        Err(RunErrorView::NotFound)
    } else if rows.len() > 1 {
        Err(RunErrorView::Ambiguous)
    } else {
        batch_of_row(rows[0])
    }
}

/// An entity that a row of the catalog can be mapped to.
pub trait FromPostgresRow: Sized {
    /// The entity that `row` describes, or the field that the row lacks.
    fn from_postgres_row(row: &RawRow) -> Result<Self, RunError>;
}

impl FromPostgresRow for Batch {
    fn from_postgres_row(row: &RawRow) -> (batch: Result<Batch, RunError>)
        ensures
            match batch {
                Ok(b) => batch_of_row(row@) == Ok::<BatchView, RunErrorView>(b@),
                Err(e) => batch_of_row(row@) == Err::<BatchView, RunErrorView>(e@),
            },
    {
        let row_id = row.int4("row_id")?;
        let batch_id = row.text("batch_id")?;
        let description = row.text_or_default("description");
        let cp_id = row.text_or_default("cp_id");
        let status = row.text_or_default("status");
        let host = row.text_or_default("host");
        let path = row.text_or_default("path");
        let created_at = row.time("created_at")?;
        Ok(
            Batch {
                row_id,
                batch_id,
                description,
                cp_id,
                status,
                host,
                path,
                created_at,
                last_modified_at: created_at,
            },
        )
    }
}

impl FromPostgresRow for BatchRecord {
    fn from_postgres_row(row: &RawRow) -> (record: Result<BatchRecord, RunError>)
        ensures
            match record {
                Ok(r) => record_of_row(row@) == Ok::<BatchRecordView, RunErrorView>(r@),
                Err(e) => record_of_row(row@) == Err::<BatchRecordView, RunErrorView>(e@),
            },
    {
        let row_id = row.int4("row_id")?;
        let batch_row_id = row.int4("batch_row_id")?;
        let dc_identifier_localid = row.text("dc_identifier_localid")?;
        let dc_title = row.text("dc_title")?;
        let filename = row.text("filename")?;
        let filesize = row.int8("filesize")?;
        let md5_hash = row.text("md5_hash")?;
        let created_at = row.time("created_at")?;
        let last_modified_at = row.time("last_modified_at")?;
        Ok(
            BatchRecord {
                row_id,
                batch_row_id,
                dc_identifier_localid,
                dc_title,
                filename,
                filesize,
                md5_hash,
                created_at,
                last_modified_at,
            },
        )
    }
}

/// The batch that `rows`, the rows found for one batch identifier, stand
/// for. Exactly one row gives its batch; none gives `NotFound`, several give
/// `Ambiguous`.
pub fn resolve_batch(rows: &Vec<RawRow>) -> (batch: Result<Batch, RunError>)
    ensures
        rows@.len() == 0 ==> (batch matches Err(e) && e@ == RunErrorView::NotFound),
        rows@.len() > 1 ==> (batch matches Err(e) && e@ == RunErrorView::Ambiguous),
        rows@.len() == 1 ==> (batch is Ok <==> batch_of_row(rows@[0]@) is Ok),
        match batch {
            Ok(b) => resolved(row_views(rows@)) == Ok::<BatchView, RunErrorView>(b@),
            Err(e) => resolved(row_views(rows@)) == Err::<BatchView, RunErrorView>(e@),
        },
{
    if rows.len() == 0 {
        Err(RunError::NotFound)
    } else if rows.len() > 1 {
        Err(RunError::Ambiguous)
    } else {
        Batch::from_postgres_row(&rows[0])
    }
}

} // verus!
