use rust_book::employees::{
    add_employee, confirms_clear, dept_listing, parse_command, remove_dept, remove_employee,
    sort_and_list_dept, sorted_depts, Command, Company, Outcome, HELP,
};

#[test]
fn integration_test() {
    let mut employees = Company::new();

    println!("{}", HELP);

    let mut words: Vec<&str> = "add John Doe to Finance Dept".split_whitespace().collect();
    add_employee(words, &mut employees);
    words = "add Mark Best to Finance Dept".split_whitespace().collect();
    add_employee(words, &mut employees);
    words = "add Pearl to Engineering".split_whitespace().collect();
    add_employee(words, &mut employees);
    words = "add Jane Doe to Finance Dept".split_whitespace().collect();
    add_employee(words, &mut employees);

    words = "deptsort Finance Dept".split_whitespace().collect();
    sort_and_list_dept(&words, &mut employees).ok().unwrap();

    let words = "remove John Doe from Finance Dept".split_whitespace().collect();
    remove_employee(&words, &mut employees);
    assert_eq!(*employees.get("Finance Dept").unwrap(),
        vec!["Jane Doe".to_string(), "Mark Best".to_string()]
    );

    assert!(employees.contains_key("Finance Dept"));
    assert!(employees.contains_key("Engineering"));

    let words = "remove Finance Dept".split_whitespace().collect();
    remove_dept(&words, &mut employees);
    assert!(!employees.contains_key("Finance Dept"));
    assert!(employees.contains_key("Engineering"));
}

#[test]
fn quoted_names_and_usage_errors() {
    let mut company = Company::new();
    let words: Vec<&str> = "add 'Sally Ride' to \"Sales\"".split_whitespace().collect();
    assert_eq!(add_employee(words, &mut company), Outcome::Done);
    assert_eq!(*company.get("Sales").unwrap(), vec!["Sally Ride".to_string()]);
    let words: Vec<&str> = "add Amir Sales".split_whitespace().collect();
    assert_eq!(add_employee(words, &mut company), Outcome::Usage);
    let words: Vec<&str> = "add to Sales".split_whitespace().collect();
    assert_eq!(add_employee(words, &mut company), Outcome::Usage);
    let words: Vec<&str> = "remove Amir from Sales".split_whitespace().collect();
    assert_eq!(
        remove_employee(&words, &mut company),
        Outcome::NoSuchEmployee("Amir".to_string(), "Sales".to_string())
    );
    let words: Vec<&str> = "remove Amir from Nowhere".split_whitespace().collect();
    assert_eq!(remove_employee(&words, &mut company), Outcome::NoSuchDept("Nowhere".to_string()));
    let words: Vec<&str> = "removedept".split_whitespace().collect();
    assert_eq!(remove_dept(&words, &mut company), Outcome::Usage);
    let words: Vec<&str> = "removedept Nowhere".split_whitespace().collect();
    assert_eq!(remove_dept(&words, &mut company), Outcome::NoSuchDept("Nowhere".to_string()));
}

#[test]
fn listings_are_sorted() {
    let mut company = Company::new();
    for line in ["add Zoe to R&D", "add Adam to R&D", "add Eve to Admin", "add Bob to R&D"] {
        let words: Vec<&str> = line.split_whitespace().collect();
        add_employee(words, &mut company);
    }
    let words: Vec<&str> = "dept R&D".split_whitespace().collect();
    assert_eq!(
        dept_listing(&words, &company).ok().unwrap(),
        vec!["Adam".to_string(), "Bob".to_string(), "Zoe".to_string()]
    );
    assert_eq!(*company.get("R&D").unwrap(), vec!["Zoe".to_string(), "Adam".to_string(), "Bob".to_string()]);
    assert_eq!(sorted_depts(&company), vec!["Admin".to_string(), "R&D".to_string()]);
    let words: Vec<&str> = "dept Nowhere".split_whitespace().collect();
    assert_eq!(dept_listing(&words, &company).err(), Some(Outcome::NoSuchDept("Nowhere".to_string())));
    let pairs = company.all_pairs();
    assert_eq!(pairs.len(), 4);
    assert_eq!(pairs[0], ("Zoe".to_string(), "R&D".to_string()));
    assert_eq!(pairs[3], ("Eve".to_string(), "Admin".to_string()));
}

#[test]
fn commands_and_confirmation() {
    assert_eq!(parse_command("ADD"), Command::Add);
    assert_eq!(parse_command("deptsort"), Command::DeptSort);
    assert_eq!(parse_command("Unique"), Command::AllUniquePerDept);
    assert_eq!(parse_command("bogus"), Command::Unknown);
    assert!(confirms_clear("  YES\n"));
    assert!(!confirms_clear("no\n"));
    let mut company = Company::new();
    let words: Vec<&str> = "add A to B".split_whitespace().collect();
    add_employee(words, &mut company);
    company.clear();
    assert!(!company.contains_key("B"));
}
